//! The service proxy and client facade: a typed stand-in for the remote
//! capability, forwarding each method call through the transport with that
//! method's fixed wire name and the call's argument as payload, and
//! returning the resulting payload unmodified.

use vstd::prelude::*;
use vstd::string::StringExecFns;

use crate::codec::{decode_response_spec, MAX_RESPONSE_LEN};
use crate::message::{Request, RpcError};
use crate::transport::Transport;

verus! {

/// The capability both peers agree on out of band: each method names one
/// remote operation that takes one string argument and returns one string
/// result.  A returned payload is always the payload of a byte sequence
/// that decodes to a well-formed response; a failed call returns only a
/// specific error, never a partial payload.
pub trait HelloService {
    fn say_hello(&self, content: String) -> (r: Result<String, RpcError>)
        ensures
            r matches Ok(p) ==> exists|b: Seq<u8>|
                #[trigger] decode_response_spec(b) == Some(p@) && b.len() <= 8 + MAX_RESPONSE_LEN,
    ;

    fn send_hello(&self, content: String) -> (r: Result<String, RpcError>)
        ensures
            r matches Ok(p) ==> exists|b: Seq<u8>|
                #[trigger] decode_response_spec(b) == Some(p@) && b.len() <= 8 + MAX_RESPONSE_LEN,
    ;
}

/// A proxy bound to one target address.  It holds no state beyond its
/// transport, and each call is an independent exchange.
pub struct HelloServiceProxy {
    pub transport: Transport,
}

impl HelloServiceProxy {
    pub fn new(host: String, port: u32) -> (r: Self)
        ensures
            r.transport.host@ == host@,
            r.transport.port == port,
    {
        HelloServiceProxy { transport: Transport::new(host, port) }
    }
}

impl HelloService for HelloServiceProxy {
    fn say_hello(&self, content: String) -> (r: Result<String, RpcError>) {
        self.transport.send(Request::new(String::from_str("say_hello"), content))
    }

    fn send_hello(&self, content: String) -> (r: Result<String, RpcError>) {
        self.transport.send(Request::new(String::from_str("send_hello"), content))
    }
}

/// Runs one demo call of each service method against the fixed local
/// address and hands both outcomes back to the caller, who may print or
/// inspect them.
pub fn client_send() -> (r: (Result<String, RpcError>, Result<String, RpcError>))
    ensures
        r.0 matches Ok(p) ==> exists|b: Seq<u8>|
            #[trigger] decode_response_spec(b) == Some(p@) && b.len() <= 8 + MAX_RESPONSE_LEN,
        r.1 matches Ok(p) ==> exists|b: Seq<u8>|
            #[trigger] decode_response_spec(b) == Some(p@) && b.len() <= 8 + MAX_RESPONSE_LEN,
{
    let service = HelloServiceProxy::new(String::from_str("127.0.0.1"), 8080);
    let first = service.say_hello(String::from_str("rpc simple demo"));
    let second = service.send_hello(String::from_str("rpc simple demo"));
    (first, second)
}

} // verus!
