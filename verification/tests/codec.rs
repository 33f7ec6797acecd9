use hello_rpc::codec::{decode_request, decode_response, encode_request, encode_response};
use hello_rpc::message::{Request, Response, RpcError};

#[test]
fn request_round_trip() {
    let r = Request::new("say_hello".to_string(), "rpc simple demo".to_string());
    let bytes = encode_request(&r);
    let decoded = decode_request(bytes.as_slice()).unwrap();
    assert_eq!(decoded.method, "say_hello");
    assert_eq!(decoded.payload, "rpc simple demo");
}

#[test]
fn response_round_trip() {
    let r = Response::new("a result".to_string());
    let bytes = encode_response(&r);
    let decoded = decode_response(bytes.as_slice()).unwrap();
    assert_eq!(decoded.payload, "a result");
}

#[test]
fn empty_fields_round_trip() {
    let r = Request::new(String::new(), String::new());
    let bytes = encode_request(&r);
    let decoded = decode_request(bytes.as_slice()).unwrap();
    assert_eq!(decoded.method, "");
    assert_eq!(decoded.payload, "");
}

#[test]
fn multibyte_payload_round_trip() {
    let r = Response::new("héllo → wörld".to_string());
    let bytes = encode_response(&r);
    let decoded = decode_response(bytes.as_slice()).unwrap();
    assert_eq!(decoded.payload, "héllo → wörld");
}

#[test]
fn encode_request_exact_bytes() {
    let r = Request::new("ab".to_string(), "c".to_string());
    let bytes = encode_request(&r);
    assert_eq!(
        bytes,
        vec![2, 0, 0, 0, 0, 0, 0, 0, b'a', b'b', 1, 0, 0, 0, 0, 0, 0, 0, b'c']
    );
}

#[test]
fn encode_response_exact_bytes() {
    let r = Response::new("ok".to_string());
    let bytes = encode_response(&r);
    assert_eq!(bytes, vec![2, 0, 0, 0, 0, 0, 0, 0, b'o', b'k']);
}

#[test]
fn decode_request_rejects_truncated() {
    let r = Request::new("say_hello".to_string(), "x".to_string());
    let mut bytes = encode_request(&r);
    bytes.pop();
    assert_eq!(
        decode_request(bytes.as_slice()).unwrap_err(),
        RpcError::MalformedMessage
    );
}

#[test]
fn decode_request_rejects_trailing_bytes() {
    let r = Request::new("say_hello".to_string(), "x".to_string());
    let mut bytes = encode_request(&r);
    bytes.push(0);
    assert_eq!(
        decode_request(bytes.as_slice()).unwrap_err(),
        RpcError::MalformedMessage
    );
}

#[test]
fn decode_response_rejects_short_input() {
    assert_eq!(
        decode_response(b"abc").unwrap_err(),
        RpcError::MalformedMessage
    );
}

#[test]
fn decode_response_rejects_invalid_utf8() {
    let bytes: Vec<u8> = vec![1, 0, 0, 0, 0, 0, 0, 0, 0xFF];
    assert_eq!(
        decode_response(bytes.as_slice()).unwrap_err(),
        RpcError::MalformedMessage
    );
}

#[test]
fn decode_response_rejects_truncated_payload() {
    let bytes: Vec<u8> = vec![5, 0, 0, 0, 0, 0, 0, 0, b'h', b'i'];
    assert_eq!(
        decode_response(bytes.as_slice()).unwrap_err(),
        RpcError::MalformedMessage
    );
}

#[test]
fn wire_level_echo_exchange() {
    // The whole exchange at the wire level: the client encodes a call to
    // "say_hello" with payload "ping"; an echoing peer decodes it and
    // answers with the payload unchanged; the client decodes the answer.
    let call = encode_request(&Request::new("say_hello".to_string(), "ping".to_string()));
    let seen = decode_request(call.as_slice()).unwrap();
    assert_eq!(seen.method, "say_hello");
    let answer = encode_response(&Response::new(seen.payload));
    let got = decode_response(answer.as_slice()).unwrap();
    assert_eq!(got.payload, "ping");
}

#[test]
fn two_frames_are_not_one_message() {
    // A connection carries exactly one message per direction: a buffer
    // holding two back-to-back frames is not a valid single message.
    let r = Request::new("say_hello".to_string(), "x".to_string());
    let mut bytes = encode_request(&r);
    let mut again = encode_request(&r);
    bytes.append(&mut again);
    assert_eq!(
        decode_request(bytes.as_slice()).unwrap_err(),
        RpcError::MalformedMessage
    );
}

#[test]
fn error_descriptions() {
    assert_eq!(RpcError::ConnectionError.describe(), "connection error");
    assert_eq!(RpcError::WriteError.describe(), "write error");
    assert_eq!(RpcError::ReadError.describe(), "read error");
    assert_eq!(RpcError::MalformedMessage.describe(), "malformed message");
    assert_eq!(RpcError::TimeoutError.describe(), "timeout");
}
