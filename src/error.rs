use vstd::prelude::*;

verus! {

/// Everything that can go wrong talking to the daemon.
#[derive(Debug, PartialEq, Eq)]
pub enum Error {
    /// The connection to the daemon failed.
    Transport(String),
    /// The daemon rejected the request with a non-2xx status.
    Api { status: u16, message: String },
    /// A response body did not have the expected shape.
    Decode(String),
    /// An attach frame carried a stream type outside stdin, stdout and stderr.
    InvalidStreamType(u8),
    /// The daemon sent a stdin frame on the output direction of an attach stream.
    ProtocolViolation,
}

/// The HTTP status code the daemon uses for an unknown resource.
pub const NOT_FOUND: u16 = 404;

impl Error {
    /// Whether this error is the daemon saying the resource does not exist.
    pub fn is_not_found(&self) -> (r: bool)
        ensures
            r == (self matches Error::Api { status: code, .. } && code == NOT_FOUND),
    {
        match self {
            Error::Api { status, .. } => *status == NOT_FOUND,
            _ => false,
        }
    }
}

/// Success when the daemon answered with a 2xx status: then the body is handed
/// on for decoding; otherwise the body is the daemon's error message.
pub fn check_status(status: u16, body: String) -> (r: Result<String, Error>)
    ensures
        200 <= status < 300 ==> (r matches Ok(b) && b@ == body@),
        !(200 <= status < 300) ==> (r matches Err(Error::Api { status: code, message })
            && code == status && message@ == body@),
{
    if 200 <= status && status < 300 {
        Ok(body)
    } else {
        Err(Error::Api { status, message: body })
    }
}

} // verus!
