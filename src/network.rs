//! Create and manage user-defined networks that containers can be attached to.
use vstd::prelude::*;
use std::collections::HashMap;
use crate::docker::Docker;
use crate::error::Error;
use crate::json::{
    body_text, copy_pairs, copy_params, copy_strings, join, render_body, strings, value_text, object_text,
    ParamValue, ParamView,
};
use crate::params::{keys, model, set_param, unique_keys, upsert, upsert_all};

verus! {

/// What `url`'s form serializer writes for one name or value: its UTF-8
/// bytes in `application/x-www-form-urlencoded` form.
pub uninterp spec fn form_component_of(s: Seq<char>) -> Seq<char>;

/// One `name=value` pair of a query string.
pub open spec fn pair_text(p: (Seq<char>, Seq<char>)) -> Seq<char> {
    form_component_of(p.0) + "="@ + form_component_of(p.1)
}

/// The query string of `m`: its pairs in order, separated by `&`.
pub open spec fn query_text(m: Seq<(Seq<char>, Seq<char>)>) -> Seq<char> {
    join(m.map_values(|p: (Seq<char>, Seq<char>)| pair_text(p)), "&"@)
}

/// Relies on url::form_urlencoded::Serializer (extend_pairs, then finish):
/// starting from an empty string, each pair is written as its encoded name,
/// `=` and its encoded value, with `&` before every pair but the first.
#[verifier::external_body]
fn form_encode(pairs: &Vec<(String, String)>) -> (r: String)
    ensures
        r@ == query_text(model(pairs@)),
        pairs@.len() == 1 ==> r@ == form_component_of(pairs@[0].0@) + "="@ + form_component_of(
            pairs@[0].1@,
        ),
{
    url::form_urlencoded::Serializer::new(String::new()).extend_pairs(pairs.iter()).finish()
}

/// The HTTP method of a request to the daemon.
#[derive(Debug, Clone, Copy, PartialEq, Eq, Structural)]
pub enum Method {
    Get,
    Post,
    Delete,
}

/// A request to the daemon: method, path with query, and JSON body.
#[derive(Debug)]
pub struct Request {
    pub method: Method,
    pub path: String,
    pub body: Option<String>,
}

/// The path that lists networks, with the filters' query string if any.
pub open spec fn list_path(query: Option<Seq<char>>) -> Seq<char> {
    match query {
        Some(q) => "/networks"@ + "?"@ + q,
        None => "/networks"@,
    }
}

/// The path of the network `id`.
pub open spec fn network_path(id: Seq<char>) -> Seq<char> {
    "/networks/"@ + id
}

/// The path of the action `segment` on the network `id`.
pub open spec fn action_path(id: Seq<char>, segment: Seq<char>) -> Seq<char> {
    "/networks/"@ + id + "/"@ + segment
}

/// The query string of a set of filters: none when there are none.
pub open spec fn query_of(m: Seq<(Seq<char>, Seq<char>)>) -> Option<Seq<char>> {
    if m.len() == 0 {
        None
    } else {
        Some(query_text(m))
    }
}

/// Interface for docker networks.
#[derive(Debug)]
pub struct Networks<'docker> {
    docker: &'docker Docker,
}

impl<'docker> Networks<'docker> {
    /// The daemon handle this interface talks to.
    pub closed spec fn docker(&self) -> Docker {
        *self.docker
    }

    /// Exports an interface for interacting with docker networks.
    pub fn new(docker: &'docker Docker) -> (r: Self)
        ensures
            r.docker() == *docker,
    {
        Networks { docker }
    }

    /// The daemon handle this interface talks to.
    pub fn docker_handle(&self) -> (r: &'docker Docker)
        ensures
            *r == self.docker(),
    {
        self.docker
    }

    /// The request that lists the networks matching `opts`.
    pub fn list(&self, opts: &NetworkListOptions) -> (r: Request)
        ensures
            r.method == Method::Get,
            r.path@ == list_path(query_of(opts@)),
            r.body is None,
    {
        let mut path = String::from_str("/networks");
        match opts.serialize() {
            Some(q) => {
                path.append("?");
                path.append(q.as_str());
            },
            None => {},
        }
        Request { method: Method::Get, path, body: None }
    }

    /// The operations on the network `id`; the daemon is not contacted.
    pub fn get(&self, id: &str) -> (r: Network<'docker>)
        ensures
            r.docker() == self.docker(),
            r@ == id@,
    {
        Network::new(self.docker, id)
    }

    /// The request that creates a network as `opts` describe.
    pub fn create(&self, opts: &NetworkCreateOptions) -> (r: Result<Request, Error>)
        ensures
            r matches Ok(req) && req.method == Method::Post && req.path@ == "/networks/create"@
                && (req.body matches Some(b) && b@ == body_text(opts@)),
    {
        let body = match opts.serialize() {
            Ok(b) => b,
            Err(e) => {
                return Err(e);
            },
        };
        Ok(Request { method: Method::Post, path: String::from_str("/networks/create"), body: Some(body) })
    }
}

/// Interface for accessing and manipulating a docker network.
#[derive(Debug)]
pub struct Network<'docker> {
    docker: &'docker Docker,
    id: String,
}

impl<'docker> View for Network<'docker> {
    type V = Seq<char>;

    /// The network's id.
    closed spec fn view(&self) -> Seq<char> {
        self.id@
    }
}

impl<'docker> Network<'docker> {
    /// The daemon handle this interface talks to.
    pub closed spec fn docker(&self) -> Docker {
        *self.docker
    }

    /// Exports an interface exposing operations against a network instance.
    pub fn new(docker: &'docker Docker, id: &str) -> (r: Self)
        ensures
            r.docker() == *docker,
            r@ == id@,
    {
        Network { docker, id: String::from_str(id) }
    }

    /// The network id.
    pub fn id(&self) -> (r: &str)
        ensures
            r@ == self@,
    {
        self.id.as_str()
    }

    /// The daemon handle this interface talks to.
    pub fn docker_handle(&self) -> (r: &'docker Docker)
        ensures
            *r == self.docker(),
    {
        self.docker
    }

    /// The request that inspects this network.
    pub fn inspect(&self) -> (r: Request)
        ensures
            r.method == Method::Get,
            r.path@ == network_path(self@),
            r.body is None,
    {
        let mut path = String::from_str("/networks/");
        path.append(self.id.as_str());
        Request { method: Method::Get, path, body: None }
    }

    /// The request that deletes this network.
    pub fn delete(&self) -> (r: Request)
        ensures
            r.method == Method::Delete,
            r.path@ == network_path(self@),
            r.body is None,
    {
        let mut path = String::from_str("/networks/");
        path.append(self.id.as_str());
        Request { method: Method::Delete, path, body: None }
    }

    /// The request that connects a container to this network.
    pub fn connect(&self, opts: &ContainerConnectionOptions) -> (r: Result<Request, Error>)
        ensures
            r matches Ok(req) && req.method == Method::Post && req.path@ == action_path(self@, "connect"@)
                && (req.body matches Some(b) && b@ == body_text(opts@)),
    {
        self.do_connection("connect", opts)
    }

    /// The request that disconnects a container from this network.
    pub fn disconnect(&self, opts: &ContainerConnectionOptions) -> (r: Result<Request, Error>)
        ensures
            r matches Ok(req) && req.method == Method::Post && req.path@ == action_path(self@, "disconnect"@)
                && (req.body matches Some(b) && b@ == body_text(opts@)),
    {
        self.do_connection("disconnect", opts)
    }

    fn do_connection(&self, segment: &str, opts: &ContainerConnectionOptions) -> (r: Result<Request, Error>)
        ensures
            r matches Ok(req) && req.method == Method::Post && req.path@ == action_path(self@, segment@)
                && (req.body matches Some(b) && b@ == body_text(opts@)),
    {
        let body = match opts.serialize() {
            Ok(b) => b,
            Err(e) => {
                return Err(e);
            },
        };
        let mut path = String::from_str("/networks/");
        path.append(self.id.as_str());
        path.append("/");
        path.append(segment);
        Ok(Request { method: Method::Post, path, body: Some(body) })
    }
}

} // verus!

verus! {

/// Options for filtering networks list results.
#[derive(Debug)]
pub struct NetworkListOptions {
    params: Vec<(String, String)>,
}

impl View for NetworkListOptions {
    type V = Seq<(Seq<char>, Seq<char>)>;

    /// The filters, in the order they were first set.
    closed spec fn view(&self) -> Seq<(Seq<char>, Seq<char>)> {
        model(self.params@)
    }
}

impl Default for NetworkListOptions {
    fn default() -> (r: Self)
        ensures
            r@ == Seq::<(Seq<char>, Seq<char>)>::empty(),
    {
        let r = NetworkListOptions { params: Vec::new() };
        assert(r@ =~= Seq::<(Seq<char>, Seq<char>)>::empty());
        r
    }
}

impl NetworkListOptions {
    /// A builder of list filters, starting with none.
    pub fn builder() -> (r: NetworkListOptionsBuilder)
        ensures
            r@ == Seq::<(Seq<char>, Seq<char>)>::empty(),
    {
        NetworkListOptionsBuilder::new()
    }

    /// The filters as a URL-encoded query string; none when no filter is set.
    pub fn serialize(&self) -> (r: Option<String>)
        ensures
            r is None <==> self@.len() == 0,
            r matches Some(s) ==> s@ == query_text(self@),
            r matches Some(s) ==> Some(s@) == query_of(self@),
    {
        if self.params.len() == 0 {
            assert(self@.len() == 0);
            None
        } else {
            Some(form_encode(&self.params))
        }
    }
}

/// Builder of `NetworkListOptions`.
#[derive(Debug)]
pub struct NetworkListOptionsBuilder {
    params: Vec<(String, String)>,
}

impl View for NetworkListOptionsBuilder {
    type V = Seq<(Seq<char>, Seq<char>)>;

    /// The filters set so far, in the order they were first set.
    closed spec fn view(&self) -> Seq<(Seq<char>, Seq<char>)> {
        model(self.params@)
    }
}

impl NetworkListOptionsBuilder {
    /// Each filter name occurs once.
    pub open spec fn wf(&self) -> bool {
        unique_keys(self@)
    }

    pub fn new() -> (r: Self)
        ensures
            r@ == Seq::<(Seq<char>, Seq<char>)>::empty(),
            r.wf(),
    {
        let r = NetworkListOptionsBuilder { params: Vec::new() };
        assert(r@ =~= Seq::<(Seq<char>, Seq<char>)>::empty());
        r
    }

    /// Sets the filter `key` to `value`, replacing an earlier value of it.
    pub fn filter(&mut self, key: &str, value: &str) -> (r: &mut Self)
        requires
            old(self).wf(),
        ensures
            r@ == upsert(old(self)@, key@, value@),
            r.wf(),
            *final(self) == *final(r),
    {
        set_param(&mut self.params, String::from_str(key), String::from_str(value));
        self
    }

    /// The filters set so far, as options of their own.
    pub fn build(&self) -> (r: NetworkListOptions)
        ensures
            r@ == self@,
    {
        NetworkListOptions { params: copy_pairs(&self.params) }
    }
}

/// Options for creating a docker network: the JSON body of the request.
#[derive(Debug)]
pub struct NetworkCreateOptions {
    params: Vec<(String, ParamValue)>,
}

impl View for NetworkCreateOptions {
    type V = Seq<(Seq<char>, ParamView)>;

    /// The members of the body, in the order they were first set.
    closed spec fn view(&self) -> Seq<(Seq<char>, ParamView)> {
        model(self.params@)
    }
}

impl NetworkCreateOptions {
    /// A builder of options for a network named `name`.
    pub fn builder(name: &str) -> (r: NetworkCreateOptionsBuilder)
        ensures
            r@ == seq![("Name"@, ParamView::Text(name@))],
            r.wf(),
    {
        NetworkCreateOptionsBuilder::new(name)
    }

    /// The options as a JSON object.
    pub fn serialize(&self) -> (r: Result<String, Error>)
        ensures
            r matches Ok(s) && s@ == body_text(self@),
    {
        Ok(render_body(&self.params))
    }
}

/// Builder of `NetworkCreateOptions`.
#[derive(Debug)]
pub struct NetworkCreateOptionsBuilder {
    params: Vec<(String, ParamValue)>,
}

impl View for NetworkCreateOptionsBuilder {
    type V = Seq<(Seq<char>, ParamView)>;

    /// The members set so far, in the order they were first set.
    closed spec fn view(&self) -> Seq<(Seq<char>, ParamView)> {
        model(self.params@)
    }
}

impl NetworkCreateOptionsBuilder {
    /// Each member name occurs once.
    pub open spec fn wf(&self) -> bool {
        unique_keys(self@)
    }

    pub(crate) fn new(name: &str) -> (r: Self)
        ensures
            r@ == seq![("Name"@, ParamView::Text(name@))],
            r.wf(),
    {
        let mut params: Vec<(String, ParamValue)> = Vec::new();
        params.push((String::from_str("Name"), ParamValue::Text(String::from_str(name))));
        let r = NetworkCreateOptionsBuilder { params };
        assert(r@ =~= seq![("Name"@, ParamView::Text(name@))]);
        r
    }

    /// Sets the network driver.
    pub fn driver(&mut self, driver: &str) -> (r: &mut Self)
        requires
            old(self).wf(),
        ensures
            r@ == upsert(old(self)@, "Driver"@, ParamView::Text(driver@)),
            r.wf(),
            *final(self) == *final(r),
    {
        set_param(&mut self.params, String::from_str("Driver"), ParamValue::Text(String::from_str(driver)));
        self
    }

    /// Sets the network's labels; a name given twice keeps its last value.
    pub fn labels(&mut self, labels: &Vec<(String, String)>) -> (r: &mut Self)
        requires
            old(self).wf(),
        ensures
            r@ == upsert(old(self)@, "Labels"@, ParamView::Pairs(upsert_all(seq![], model(labels@)))),
            r.wf(),
            *final(self) == *final(r),
    {
        let pairs = collect_pairs(labels);
        set_param(&mut self.params, String::from_str("Labels"), ParamValue::Pairs(pairs));
        self
    }

    /// The options set so far, as a value of their own.
    pub fn build(&self) -> (r: NetworkCreateOptions)
        ensures
            r@ == self@,
    {
        NetworkCreateOptions { params: copy_params(&self.params) }
    }
}

/// `ps` with each name kept once, holding its last value, in the order
/// names first occur.
fn collect_pairs(ps: &Vec<(String, String)>) -> (r: Vec<(String, String)>)
    ensures
        model(r@) == upsert_all(seq![], model(ps@)),
        unique_keys(model(r@)),
{
    let mut out: Vec<(String, String)> = Vec::new();
    let n = ps.len();
    let mut i: usize = 0;
    assert(model(ps@).take(0) =~= Seq::<(Seq<char>, Seq<char>)>::empty());
    assert(model(out@) =~= Seq::<(Seq<char>, Seq<char>)>::empty());
    while i < n
        invariant
            n == ps@.len(),
            i <= n,
            model(out@) == upsert_all(seq![], model(ps@).take(i as int)),
            unique_keys(model(out@)),
        decreases n - i,
    {
        assert(model(ps@).take(i + 1).drop_last() =~= model(ps@).take(i as int));
        set_param(&mut out, ps[i].0.clone(), ps[i].1.clone());
        i = i + 1;
    }
    assert(model(ps@).take(n as int) =~= model(ps@));
    out
}

/// Options for connecting a container to a network: the JSON body of the
/// request.
#[derive(Debug)]
pub struct ContainerConnectionOptions {
    params: Vec<(String, ParamValue)>,
}

impl View for ContainerConnectionOptions {
    type V = Seq<(Seq<char>, ParamView)>;

    /// The members of the body, in the order they were first set.
    closed spec fn view(&self) -> Seq<(Seq<char>, ParamView)> {
        model(self.params@)
    }
}

impl ContainerConnectionOptions {
    /// The options as a JSON object.
    pub fn serialize(&self) -> (r: Result<String, Error>)
        ensures
            r matches Ok(s) && s@ == body_text(self@),
    {
        Ok(render_body(&self.params))
    }

    /// A builder of options for the container `container_id`.
    pub fn builder(container_id: &str) -> (r: ContainerConnectionOptionsBuilder)
        ensures
            r@ == seq![("Container"@, ParamView::Text(container_id@))],
            r.wf(),
    {
        ContainerConnectionOptionsBuilder::new(container_id)
    }
}

/// Builder of `ContainerConnectionOptions`.
#[derive(Debug)]
pub struct ContainerConnectionOptionsBuilder {
    params: Vec<(String, ParamValue)>,
}

impl View for ContainerConnectionOptionsBuilder {
    type V = Seq<(Seq<char>, ParamView)>;

    /// The members set so far, in the order they were first set.
    closed spec fn view(&self) -> Seq<(Seq<char>, ParamView)> {
        model(self.params@)
    }
}

impl ContainerConnectionOptionsBuilder {
    /// Each member name occurs once.
    pub open spec fn wf(&self) -> bool {
        unique_keys(self@)
    }

    pub(crate) fn new(container_id: &str) -> (r: Self)
        ensures
            r@ == seq![("Container"@, ParamView::Text(container_id@))],
            r.wf(),
    {
        let mut params: Vec<(String, ParamValue)> = Vec::new();
        params.push((String::from_str("Container"), ParamValue::Text(String::from_str(container_id))));
        let r = ContainerConnectionOptionsBuilder { params };
        assert(r@ =~= seq![("Container"@, ParamView::Text(container_id@))]);
        r
    }

    /// Sets the container's aliases on the network.
    pub fn aliases(&mut self, aliases: &Vec<String>) -> (r: &mut Self)
        requires
            old(self).wf(),
        ensures
            r@ == upsert(old(self)@, "EndpointConfig"@, ParamView::Aliases(strings(aliases@))),
            r.wf(),
            *final(self) == *final(r),
    {
        let xs = copy_strings(aliases);
        set_param(&mut self.params, String::from_str("EndpointConfig"), ParamValue::Aliases(xs));
        self
    }

    /// Asks the daemon to force the disconnection.
    pub fn force(&mut self) -> (r: &mut Self)
        requires
            old(self).wf(),
        ensures
            r@ == upsert(old(self)@, "Force"@, ParamView::Flag(true)),
            r.wf(),
            *final(self) == *final(r),
    {
        set_param(&mut self.params, String::from_str("Force"), ParamValue::Flag(true));
        self
    }

    /// The options set so far, as a value of their own.
    pub fn build(&self) -> (r: ContainerConnectionOptions)
        ensures
            r@ == self@,
    {
        ContainerConnectionOptions { params: copy_params(&self.params) }
    }
}

} // verus!

verus! {

/// Published ports: for each `port/protocol`, the host bindings, if any.
pub type PortDescription = HashMap<String, Option<Vec<HashMap<String, String>>>>;

/// A container's network settings.
#[derive(Clone, Debug)]
pub struct NetworkSettings {
    pub bridge: String,
    pub gateway: String,
    pub ip_address: String,
    pub ip_prefix_len: u64,
    pub mac_address: String,
    pub ports: Option<PortDescription>,
    pub networks: HashMap<String, NetworkEntry>,
}

/// A container's endpoint on one network.
#[derive(Clone, Debug)]
pub struct NetworkEntry {
    pub network_id: String,
    pub endpoint_id: String,
    pub gateway: String,
    pub ip_address: String,
    pub ip_prefix_len: u64,
    pub ipv6_gateway: String,
    pub global_ipv6_address: String,
    pub global_ipv6_prefix_len: u64,
    pub mac_address: String,
}

/// Traffic counters of a network interface.
#[derive(Clone, Debug)]
pub struct NetworkInfo {
    pub rx_dropped: u64,
    pub rx_bytes: u64,
    pub rx_errors: u64,
    pub tx_packets: u64,
    pub tx_dropped: u64,
    pub rx_packets: u64,
    pub tx_errors: u64,
    pub tx_bytes: u64,
}

/// IP address management of a network.
#[derive(Clone, Debug)]
pub struct Ipam {
    pub driver: String,
    pub config: Vec<HashMap<String, String>>,
    pub options: Option<HashMap<String, String>>,
}

/// What the daemon reports of a network.
#[derive(Clone, Debug)]
pub struct NetworkDetails {
    pub name: String,
    pub id: String,
    pub scope: String,
    pub driver: String,
    pub enable_ipv6: bool,
    pub ipam: Ipam,
    pub internal: bool,
    pub attachable: bool,
    pub containers: HashMap<String, NetworkContainerDetails>,
    pub options: Option<HashMap<String, String>>,
    pub labels: Option<HashMap<String, String>>,
}

/// A container's endpoint as reported with its network.
#[derive(Clone, Debug)]
pub struct NetworkContainerDetails {
    pub endpoint_id: String,
    pub mac_address: String,
    pub ipv4_address: String,
    pub ipv6_address: String,
}

/// The daemon's answer to a network creation.
#[derive(Clone, Debug)]
pub struct NetworkCreateInfo {
    pub id: String,
    pub warning: String,
}

/// The members of an options body: each key with the JSON text of its value.
pub open spec fn members(m: Seq<(Seq<char>, ParamView)>) -> Seq<(Seq<char>, Seq<char>)> {
    m.map_values(|e: (Seq<char>, ParamView)| (e.0, value_text(e.1)))
}

/// The encoded body is a JSON object whose member names are exactly the keys
/// that were set, each once and in the order first set, and nothing else.
pub proof fn lemma_body_keys(m: Seq<(Seq<char>, ParamView)>)
    requires
        unique_keys(m),
    ensures
        body_text(m) == object_text(members(m)),
        keys(members(m)) == keys(m),
        unique_keys(members(m)),
{
    assert(keys(members(m)) =~= keys(m));
}

} // verus!
