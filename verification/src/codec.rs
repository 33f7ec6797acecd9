//! The framing codec: a deterministic, reversible conversion between a
//! message value and the byte sequence that travels over a connection.
//!
//! Each string field is framed as eight little-endian length bytes followed
//! by exactly that many bytes of the field's UTF-8 encoding.  A request is
//! its method field followed by its payload field; a response is a single
//! payload field.  The length prefix lets a reader tell a complete message
//! from a partial one, so the transport can keep reading until the declared
//! length is satisfied instead of assuming one read yields one message.

use vstd::prelude::*;
use vstd::bytes::{
    lemma_auto_spec_u64_to_from_le_bytes, spec_u64_from_le_bytes, spec_u64_to_le_bytes,
    u64_from_le_bytes, u64_to_le_bytes,
};
use vstd::slice::slice_subrange;
use vstd::string::StrSliceExecFns;
use vstd::utf8::{decode_utf8, encode_utf8, encode_utf8_decode_utf8, encode_utf8_valid_utf8, valid_utf8};

use crate::message::{Request, Response, RpcError};

verus! {

/// The most payload bytes a response frame may declare; a frame that
/// declares more is a protocol violation.  It also gives the read loop's
/// buffer a fixed capacity.
pub const MAX_RESPONSE_LEN: usize = 65536;

/// One length-delimited field: eight little-endian length bytes, then the
/// field bytes themselves.
pub open spec fn field_bytes(b: Seq<u8>) -> Seq<u8>
    recommends
        b.len() <= u64::MAX,
{
    spec_u64_to_le_bytes(b.len() as u64) + b
}

/// The wire bytes of a request with method `m` and payload `p`.
pub open spec fn encode_request_bytes(m: Seq<char>, p: Seq<char>) -> Seq<u8> {
    field_bytes(encode_utf8(m)) + field_bytes(encode_utf8(p))
}

/// The wire bytes of a response with payload `p`.
pub open spec fn encode_response_bytes(p: Seq<char>) -> Seq<u8> {
    field_bytes(encode_utf8(p))
}

/// The length declared by the eight-byte prefix of `b`.
pub open spec fn declared_len(b: Seq<u8>) -> nat
    recommends
        b.len() >= 8,
{
    spec_u64_from_le_bytes(b.subrange(0, 8)) as nat
}

/// Splits `b` into the raw method and payload bytes of a request frame,
/// provided `b` is exactly one complete request frame.
pub open spec fn decode_request_fields(b: Seq<u8>) -> Option<(Seq<u8>, Seq<u8>)> {
    if b.len() < 8 {
        None
    } else {
        let ml = declared_len(b);
        if b.len() < 8 + ml {
            None
        } else {
            let m = b.subrange(8, 8 + ml as int);
            let rest = b.subrange(8 + ml as int, b.len() as int);
            if rest.len() < 8 {
                None
            } else {
                let pl = declared_len(rest);
                if rest.len() != 8 + pl {
                    None
                } else {
                    Some((m, rest.subrange(8, rest.len() as int)))
                }
            }
        }
    }
}

/// The request value encoded by `b`, if `b` is exactly one complete request
/// frame whose fields are valid UTF-8.
pub open spec fn decode_request_spec(b: Seq<u8>) -> Option<(Seq<char>, Seq<char>)> {
    match decode_request_fields(b) {
        Some(fields) => {
            if valid_utf8(fields.0) && valid_utf8(fields.1) {
                Some((decode_utf8(fields.0), decode_utf8(fields.1)))
            } else {
                None
            }
        },
        None => None,
    }
}

/// The raw payload bytes of a response frame, provided `b` is exactly one
/// complete response frame.
pub open spec fn decode_response_fields(b: Seq<u8>) -> Option<Seq<u8>> {
    if b.len() < 8 {
        None
    } else {
        let pl = declared_len(b);
        if b.len() != 8 + pl {
            None
        } else {
            Some(b.subrange(8, b.len() as int))
        }
    }
}

/// The response payload encoded by `b`, if `b` is exactly one complete
/// response frame whose payload is valid UTF-8.
pub open spec fn decode_response_spec(b: Seq<u8>) -> Option<Seq<char>> {
    match decode_response_fields(b) {
        Some(p) => {
            if valid_utf8(p) {
                Some(decode_utf8(p))
            } else {
                None
            }
        },
        None => None,
    }
}

/// What a partial byte buffer says about the response being read: more
/// bytes are still owed, the frame is complete, or the bytes can no longer
/// become a single well-formed frame.
#[derive(Clone, Copy, Debug, PartialEq, Eq, Structural)]
pub enum Progress {
    /// The buffer is a proper prefix of a frame; keep reading.
    NeedMore,
    /// The buffer is exactly one complete frame.
    Ready,
    /// The buffer declares an oversized frame or runs past the declared
    /// length; no further bytes can mend it.
    Broken,
}

/// The classification `response_progress` computes, as a function of the
/// buffered bytes.
pub open spec fn response_progress_spec(b: Seq<u8>) -> Progress {
    if b.len() < 8 {
        Progress::NeedMore
    } else {
        let pl = declared_len(b);
        if pl > MAX_RESPONSE_LEN as nat {
            Progress::Broken
        } else if b.len() < 8 + pl {
            Progress::NeedMore
        } else if b.len() == 8 + pl {
            Progress::Ready
        } else {
            Progress::Broken
        }
    }
}

/// Classifies a partially read response buffer.
pub fn response_progress(b: &Vec<u8>) -> (r: Progress)
    ensures
        r == response_progress_spec(b@),
{
    if b.len() < 8 {
        return Progress::NeedMore;
    }
    let pl = u64_from_le_bytes(slice_subrange(b.as_slice(), 0, 8));
    if pl > MAX_RESPONSE_LEN as u64 {
        Progress::Broken
    } else if (b.len() as u64) < 8 + pl {
        Progress::NeedMore
    } else if (b.len() as u64) == 8 + pl {
        Progress::Ready
    } else {
        Progress::Broken
    }
}

/// Relies on str::from_utf8: it succeeds exactly on byte sequences that are
/// the UTF-8 encoding of some characters, and returns those characters.
#[verifier::external_body]
fn bytes_to_string(b: &[u8]) -> (r: Option<String>)
    ensures
        r is Some <==> valid_utf8(b@),
        r matches Some(s) ==> s@ == decode_utf8(b@),
{
    match std::str::from_utf8(b) {
        Ok(s) => Some(s.to_string()),
        Err(_) => None,
    }
}

/// Encodes a request into the byte sequence that is written, in one piece,
/// to the connection.
pub fn encode_request(r: &Request) -> (out: Vec<u8>)
    ensures
        out@ == encode_request_bytes(r.method@, r.payload@),
{
    let mut mb = r.method.as_str().as_bytes_vec();
    let mut pb = r.payload.as_str().as_bytes_vec();
    let ghost mseq = mb@;
    let ghost pseq = pb@;
    let mut out = u64_to_le_bytes(mb.len() as u64);
    out.append(&mut mb);
    let mut plen = u64_to_le_bytes(pb.len() as u64);
    out.append(&mut plen);
    out.append(&mut pb);
    proof {
        assert(out@ =~= field_bytes(mseq) + field_bytes(pseq));
    }
    out
}

/// Encodes a response into the byte sequence that answers one request.
pub fn encode_response(r: &Response) -> (out: Vec<u8>)
    ensures
        out@ == encode_response_bytes(r.payload@),
{
    let mut pb = r.payload.as_str().as_bytes_vec();
    let ghost pseq = pb@;
    let mut out = u64_to_le_bytes(pb.len() as u64);
    out.append(&mut pb);
    proof {
        assert(out@ =~= field_bytes(pseq));
    }
    out
}

/// Decodes a byte slice into the request it encodes.  Fails with
/// `MalformedMessage` exactly when the bytes are not one complete,
/// well-formed request frame: truncated, overlong, or not UTF-8.
pub fn decode_request(b: &[u8]) -> (r: Result<Request, RpcError>)
    ensures
        match decode_request_spec(b@) {
            Some(mp) => r matches Ok(req) && req.method@ == mp.0 && req.payload@ == mp.1,
            None => r matches Err(e) && e == RpcError::MalformedMessage,
        },
{
    if b.len() < 8 {
        return Err(RpcError::MalformedMessage);
    }
    let ml = u64_from_le_bytes(slice_subrange(b, 0, 8));
    if ml > (b.len() - 8) as u64 {
        return Err(RpcError::MalformedMessage);
    }
    let mlen: usize = ml as usize;
    let m = slice_subrange(b, 8, 8 + mlen);
    let rest = slice_subrange(b, 8 + mlen, b.len());
    if rest.len() < 8 {
        return Err(RpcError::MalformedMessage);
    }
    let pl = u64_from_le_bytes(slice_subrange(rest, 0, 8));
    if pl != (rest.len() - 8) as u64 {
        return Err(RpcError::MalformedMessage);
    }
    let p = slice_subrange(rest, 8, rest.len());
    let method = match bytes_to_string(m) {
        Some(s) => s,
        None => {
            return Err(RpcError::MalformedMessage);
        },
    };
    let payload = match bytes_to_string(p) {
        Some(s) => s,
        None => {
            return Err(RpcError::MalformedMessage);
        },
    };
    Ok(Request { method, payload })
}

/// Decodes a byte slice into the response it encodes.  Fails with
/// `MalformedMessage` exactly when the bytes are not one complete,
/// well-formed response frame.
pub fn decode_response(b: &[u8]) -> (r: Result<Response, RpcError>)
    ensures
        match decode_response_spec(b@) {
            Some(p) => r matches Ok(resp) && resp.payload@ == p,
            None => r matches Err(e) && e == RpcError::MalformedMessage,
        },
{
    if b.len() < 8 {
        return Err(RpcError::MalformedMessage);
    }
    let pl = u64_from_le_bytes(slice_subrange(b, 0, 8));
    if pl != (b.len() - 8) as u64 {
        return Err(RpcError::MalformedMessage);
    }
    let p = slice_subrange(b, 8, b.len());
    match bytes_to_string(p) {
        Some(s) => Ok(Response { payload: s }),
        None => Err(RpcError::MalformedMessage),
    }
}

/// Law: decoding an encoded request yields the original request, for every
/// method and payload whose UTF-8 encodings fit in a length prefix.
pub proof fn lemma_request_round_trip(m: Seq<char>, p: Seq<char>)
    requires
        encode_utf8(m).len() <= u64::MAX,
        encode_utf8(p).len() <= u64::MAX,
    ensures
        decode_request_spec(encode_request_bytes(m, p)) == Some((m, p)),
{
    lemma_auto_spec_u64_to_from_le_bytes();
    broadcast use encode_utf8_valid_utf8, encode_utf8_decode_utf8;

    let mb = encode_utf8(m);
    let pb = encode_utf8(p);
    let b = encode_request_bytes(m, p);
    assert(b.subrange(0, 8) =~= spec_u64_to_le_bytes(mb.len() as u64));
    assert(declared_len(b) == mb.len());
    assert(b.subrange(8, 8 + mb.len() as int) =~= mb);
    let rest = b.subrange(8 + mb.len() as int, b.len() as int);
    assert(rest =~= field_bytes(pb));
    assert(rest.subrange(0, 8) =~= spec_u64_to_le_bytes(pb.len() as u64));
    assert(declared_len(rest) == pb.len());
    assert(rest.subrange(8, rest.len() as int) =~= pb);
    assert(decode_request_fields(b) == Some((mb, pb)));
}

/// Law: decoding an encoded response yields the original response, for
/// every payload whose UTF-8 encoding fits in a length prefix.
pub proof fn lemma_response_round_trip(p: Seq<char>)
    requires
        encode_utf8(p).len() <= u64::MAX,
    ensures
        decode_response_spec(encode_response_bytes(p)) == Some(p),
{
    lemma_auto_spec_u64_to_from_le_bytes();
    broadcast use encode_utf8_valid_utf8, encode_utf8_decode_utf8;

    let pb = encode_utf8(p);
    let b = encode_response_bytes(p);
    assert(b.subrange(0, 8) =~= spec_u64_to_le_bytes(pb.len() as u64));
    assert(declared_len(b) == pb.len());
    assert(b.subrange(8, b.len() as int) =~= pb);
    assert(decode_response_fields(b) == Some(pb));
}

} // verus!
