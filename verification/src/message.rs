use vstd::prelude::*;

verus! {

/// A remote call: the name of the operation to invoke on the peer and the
/// call's single string argument.  One `Request` is created per call and
/// discarded after it has been encoded.
#[derive(Debug)]
pub struct Request {
    pub method: String,
    pub payload: String,
}

impl Request {
    pub fn new(method: String, payload: String) -> (r: Request)
        ensures
            r.method@ == method@,
            r.payload@ == payload@,
    {
        Request { method, payload }
    }
}

/// A remote reply: the result payload of one call, produced by decoding the
/// bytes read from the connection and consumed right after.
#[derive(Debug)]
pub struct Response {
    pub payload: String,
}

impl Response {
    pub fn new(payload: String) -> (r: Response)
        ensures
            r.payload@ == payload@,
    {
        Response { payload }
    }
}

/// Everything that can make a remote exchange fail.  Each step of an
/// exchange reports its own variant, so a caller can always tell at which
/// step a call was aborted; no failure is collapsed into another.
#[derive(Clone, Copy, Debug, PartialEq, Eq, Structural)]
pub enum RpcError {
    /// The connection could not be established: the peer is down, refused
    /// the connection, the address is invalid, or the network is unreachable.
    ConnectionError,
    /// Writing the encoded request failed mid-exchange.
    WriteError,
    /// Reading the response failed, or the peer closed the connection
    /// before a complete response had arrived.
    ReadError,
    /// The received bytes are not a valid encoding of a response.
    MalformedMessage,
    /// A connect, write or read did not finish within its bounded interval.
    TimeoutError,
}

impl RpcError {
    /// A short fixed description, for callers that log or print failures.
    pub fn describe(&self) -> (r: &'static str)
        ensures
            r@ == self.describe_spec(),
    {
        match self {
            RpcError::ConnectionError => "connection error",
            RpcError::WriteError => "write error",
            RpcError::ReadError => "read error",
            RpcError::MalformedMessage => "malformed message",
            RpcError::TimeoutError => "timeout",
        }
    }

    pub open spec fn describe_spec(&self) -> Seq<char> {
        match self {
            RpcError::ConnectionError => "connection error"@,
            RpcError::WriteError => "write error"@,
            RpcError::ReadError => "read error"@,
            RpcError::MalformedMessage => "malformed message"@,
            RpcError::TimeoutError => "timeout"@,
        }
    }
}

} // verus!
