use docker_api::docker::Docker;
use docker_api::error::{check_status, Error};
use docker_api::network::{
    ContainerConnectionOptions, Method, NetworkCreateOptions, NetworkListOptions, Networks,
};
use serde_json::Value;

#[test]
fn empty_list_options_have_no_query() {
    assert_eq!(NetworkListOptions::default().serialize(), None);
    assert_eq!(NetworkListOptions::builder().build().serialize(), None);
}

#[test]
fn list_options_encode_each_pair() {
    let opts = NetworkListOptions::builder()
        .filter("name", "my net")
        .filter("driver", "bridge")
        .build();
    assert_eq!(opts.serialize(), Some("name=my+net&driver=bridge".to_string()));
}

#[test]
fn list_options_percent_encode_reserved_bytes() {
    let opts = NetworkListOptions::builder().filter("label", "a=b&c").build();
    assert_eq!(opts.serialize(), Some("label=a%3Db%26c".to_string()));
}

#[test]
fn list_filter_set_twice_keeps_last() {
    let opts = NetworkListOptions::builder()
        .filter("name", "a")
        .filter("scope", "local")
        .filter("name", "b")
        .build();
    assert_eq!(opts.serialize(), Some("name=b&scope=local".to_string()));
}

#[test]
fn list_request_paths() {
    let docker = Docker::new("tcp://127.0.0.1:80");
    let networks = Networks::new(&docker);
    let all = networks.list(&NetworkListOptions::default());
    assert_eq!(all.method, Method::Get);
    assert_eq!(all.path, "/networks");
    assert!(all.body.is_none());
    let some = networks.list(&NetworkListOptions::builder().filter("name", "x").build());
    assert_eq!(some.path, "/networks?name=x");
}

#[test]
fn create_body_is_exact_json() {
    let opts = NetworkCreateOptions::builder("net1")
        .driver("bridge")
        .labels(&vec![
            ("a".to_string(), "1".to_string()),
            ("b".to_string(), "2".to_string()),
            ("a".to_string(), "3".to_string()),
        ])
        .build();
    assert_eq!(
        opts.serialize().unwrap(),
        r#"{"Name":"net1","Driver":"bridge","Labels":{"a":"3","b":"2"}}"#
    );
}

#[test]
fn create_body_decodes_to_inserted_keys() {
    let opts = NetworkCreateOptions::builder("net1").driver("overlay").build();
    let v: Value = serde_json::from_str(&opts.serialize().unwrap()).unwrap();
    let obj = v.as_object().unwrap();
    let mut keys: Vec<&String> = obj.keys().collect();
    keys.sort();
    assert_eq!(keys, vec!["Driver", "Name"]);
    assert_eq!(obj["Name"], Value::String("net1".to_string()));
    assert_eq!(obj["Driver"], Value::String("overlay".to_string()));
}

#[test]
fn create_name_only_has_one_key() {
    let opts = NetworkCreateOptions::builder("solo").build();
    let v: Value = serde_json::from_str(&opts.serialize().unwrap()).unwrap();
    assert_eq!(v.as_object().unwrap().len(), 1);
}

#[test]
fn create_setter_twice_overwrites() {
    let opts = NetworkCreateOptions::builder("n")
        .driver("bridge")
        .driver("overlay")
        .build();
    assert_eq!(opts.serialize().unwrap(), r#"{"Name":"n","Driver":"overlay"}"#);
}

#[test]
fn create_body_escapes_strings() {
    let opts = NetworkCreateOptions::builder("a\"b\\c").build();
    assert_eq!(opts.serialize().unwrap(), r#"{"Name":"a\"b\\c"}"#);
}

#[test]
fn create_request() {
    let docker = Docker::new("tcp://127.0.0.1:80");
    let req = Networks::new(&docker)
        .create(&NetworkCreateOptions::builder("web").build())
        .unwrap();
    assert_eq!(req.method, Method::Post);
    assert_eq!(req.path, "/networks/create");
    assert_eq!(req.body, Some(r#"{"Name":"web"}"#.to_string()));
}

#[test]
fn connection_body_is_exact_json() {
    let opts = ContainerConnectionOptions::builder("c1")
        .aliases(&vec!["web".to_string(), "db".to_string()])
        .force()
        .build();
    assert_eq!(
        opts.serialize().unwrap(),
        r#"{"Container":"c1","EndpointConfig":{"Aliases":["web","db"]},"Force":true}"#
    );
}

#[test]
fn connection_empty_aliases() {
    let opts = ContainerConnectionOptions::builder("c1").aliases(&vec![]).build();
    assert_eq!(
        opts.serialize().unwrap(),
        r#"{"Container":"c1","EndpointConfig":{"Aliases":[]}}"#
    );
}

#[test]
fn connection_setters_twice_overwrite() {
    let opts = ContainerConnectionOptions::builder("c1")
        .force()
        .aliases(&vec!["x".to_string()])
        .force()
        .aliases(&vec!["y".to_string()])
        .build();
    assert_eq!(
        opts.serialize().unwrap(),
        r#"{"Container":"c1","Force":true,"EndpointConfig":{"Aliases":["y"]}}"#
    );
}

#[test]
fn single_network_requests() {
    let docker = Docker::new("unix:///var/run/docker.sock");
    assert_eq!(docker.host(), "unix:///var/run/docker.sock");
    let network = Networks::new(&docker).get("abc");
    assert_eq!(network.id(), "abc");
    let inspect = network.inspect();
    assert_eq!(inspect.method, Method::Get);
    assert_eq!(inspect.path, "/networks/abc");
    let delete = network.delete();
    assert_eq!(delete.method, Method::Delete);
    assert_eq!(delete.path, "/networks/abc");
    let opts = ContainerConnectionOptions::builder("c9").build();
    let connect = network.connect(&opts).unwrap();
    assert_eq!(connect.method, Method::Post);
    assert_eq!(connect.path, "/networks/abc/connect");
    assert_eq!(connect.body, Some(r#"{"Container":"c9"}"#.to_string()));
    let disconnect = network.disconnect(&opts).unwrap();
    assert_eq!(disconnect.path, "/networks/abc/disconnect");
}

#[test]
fn inspect_of_unknown_network_is_not_found() {
    let r = check_status(404, "{\"message\":\"network nope not found\"}".to_string());
    let e = r.unwrap_err();
    assert!(e.is_not_found());
    assert_eq!(
        e,
        Error::Api { status: 404, message: "{\"message\":\"network nope not found\"}".to_string() }
    );
}

#[test]
fn check_status_passes_success_and_rejects_others() {
    assert_eq!(check_status(200, "[]".to_string()), Ok("[]".to_string()));
    assert_eq!(check_status(201, "{}".to_string()), Ok("{}".to_string()));
    let conflict = check_status(409, "in use".to_string()).unwrap_err();
    assert!(!conflict.is_not_found());
    assert_eq!(conflict, Error::Api { status: 409, message: "in use".to_string() });
    assert!(!Error::ProtocolViolation.is_not_found());
}
