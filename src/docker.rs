use vstd::prelude::*;

verus! {

/// The handle to a Docker daemon endpoint that the resource clients borrow.
/// It names the endpoint; the connection itself belongs to the transport.
#[derive(Debug)]
pub struct Docker {
    host: String,
}

impl View for Docker {
    type V = Seq<char>;

    /// The endpoint, as text.
    closed spec fn view(&self) -> Seq<char> {
        self.host@
    }
}

impl Docker {
    /// A handle to the daemon at `host`, such as `tcp://127.0.0.1:80`.
    pub fn new(host: &str) -> (r: Docker)
        ensures
            r@ == host@,
    {
        Docker { host: String::from_str(host) }
    }

    /// The endpoint this handle names.
    pub fn host(&self) -> (r: &str)
        ensures
            r@ == self@,
    {
        self.host.as_str()
    }
}

} // verus!
