//! The transport: the full lifecycle of a single RPC exchange.  Each call
//! opens its own connection, writes one encoded request, reads until one
//! complete response frame has arrived, decodes it, and releases the
//! connection on every exit path.  No state is shared between calls, so
//! concurrent calls cannot interfere with one another.

use vstd::prelude::*;

use crate::codec::{
    decode_response, decode_response_spec, encode_request, response_progress, Progress,
    MAX_RESPONSE_LEN,
};
use crate::conn::{new_runtime, tcp_connect, tcp_read_chunk, tcp_write_all, IoFault};
use crate::message::{Request, RpcError};

verus! {

/// A transport bound to one target address, fixed at construction.
pub struct Transport {
    pub host: String,
    pub port: u32,
}

impl Transport {
    pub fn new(host: String, port: u32) -> (r: Transport)
        ensures
            r.host@ == host@,
            r.port == port,
    {
        Transport { host, port }
    }

    /// Performs one exchange: connect, write the encoded request, read and
    /// decode the response, and return its payload.
    ///
    /// A returned payload is never partially valid: it is always the
    /// payload of a byte sequence that decodes to a well-formed response.
    /// A port that fits no TCP address is rejected as a connection
    /// failure before any connection is attempted.  Every other failure is
    /// reported as the variant of the step that failed: `ConnectionError`
    /// on connect, `WriteError` on write, `ReadError` when a read fails or
    /// the peer closes early, `MalformedMessage` when the received bytes
    /// are not one well-formed response frame, and `TimeoutError` when a
    /// step exceeds its bounded interval.
    pub fn send(&self, request: Request) -> (r: Result<String, RpcError>)
        ensures
            r matches Ok(p) ==> exists|b: Seq<u8>|
                #[trigger] decode_response_spec(b) == Some(p@) && b.len() <= 8 + MAX_RESPONSE_LEN,
            self.port > 0xFFFF ==> (r matches Err(e) && e == RpcError::ConnectionError),
    {
        if self.port > 0xFFFF {
            return Err(RpcError::ConnectionError);
        }
        let port: u16 = self.port as u16;
        let rt = match new_runtime() {
            Ok(rt) => rt,
            Err(_) => {
                return Err(RpcError::ConnectionError);
            },
        };
        let mut stream = match tcp_connect(&rt, self.host.as_str(), port) {
            Ok(s) => s,
            Err(IoFault::Failed(_)) => {
                return Err(RpcError::ConnectionError);
            },
            Err(IoFault::TimedOut(_)) => {
                return Err(RpcError::TimeoutError);
            },
        };
        let frame = encode_request(&request);
        match tcp_write_all(&rt, &mut stream, &frame) {
            Ok(()) => {},
            Err(IoFault::Failed(_)) => {
                return Err(RpcError::WriteError);
            },
            Err(IoFault::TimedOut(_)) => {
                return Err(RpcError::TimeoutError);
            },
        }
        let mut buf: Vec<u8> = Vec::new();
        // While more bytes are owed, the buffer is short of the declared
        // frame end, which the max-frame check keeps below a fixed bound;
        // each successful read adds at least one byte.
        loop
            invariant
                self.port <= 0xFFFF,
            decreases (if buf@.len() <= 8 + MAX_RESPONSE_LEN {
                8 + MAX_RESPONSE_LEN - buf@.len()
            } else {
                0int
            }),
        {
            match response_progress(&buf) {
                Progress::Ready => {
                    return match decode_response(buf.as_slice()) {
                        Ok(resp) => {
                            proof {
                                assert(decode_response_spec(buf@) == Some(resp.payload@));
                                assert(buf@.len() <= 8 + MAX_RESPONSE_LEN);
                            }
                            Ok(resp.payload)
                        },
                        Err(_) => Err(RpcError::MalformedMessage),
                    };
                },
                Progress::Broken => {
                    return Err(RpcError::MalformedMessage);
                },
                Progress::NeedMore => {
                    match tcp_read_chunk(&rt, &mut stream) {
                        Ok(chunk) => {
                            if chunk.len() == 0 {
                                return Err(RpcError::ReadError);
                            }
                            let mut chunk = chunk;
                            buf.append(&mut chunk);
                        },
                        Err(IoFault::Failed(_)) => {
                            return Err(RpcError::ReadError);
                        },
                        Err(IoFault::TimedOut(_)) => {
                            return Err(RpcError::TimeoutError);
                        },
                    }
                },
            }
        }
    }
}

} // verus!
