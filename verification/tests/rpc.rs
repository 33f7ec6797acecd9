use hello_rpc::client::{client_send, HelloService, HelloServiceProxy};
use hello_rpc::message::RpcError;
use tokio::net::TcpListener;
use tokio::runtime::Runtime;

fn proxy(port: u16) -> HelloServiceProxy {
    HelloServiceProxy::new("127.0.0.1".to_string(), port as u32)
}

#[test]
fn test() {
    client_send();
}

#[test]
fn unreachable_peer_is_connection_error() {
    // Pick a port the system just proved free, then drop the listener so
    // nothing answers on it.
    let rt = Runtime::new().unwrap();
    let listener =
        rt.block_on(async { TcpListener::bind(("127.0.0.1", 0)).await.unwrap() });
    let port: u16 = listener.local_addr().unwrap().port();
    drop(listener);
    let service = proxy(port);
    assert_eq!(
        service.say_hello("nobody listens".to_string()),
        Err(RpcError::ConnectionError)
    );
}

#[test]
fn port_out_of_range_is_connection_error() {
    let service = HelloServiceProxy::new("127.0.0.1".to_string(), 100000);
    assert_eq!(
        service.say_hello("x".to_string()),
        Err(RpcError::ConnectionError)
    );
}

#[test]
fn concurrent_sends_are_independent() {
    // Each call owns its runtime, connection attempt and buffers, so many
    // calls in flight at once must neither interfere nor panic; with no
    // peer to answer, every one of them must fail on its own.
    let rt = Runtime::new().unwrap();
    let mut clients = Vec::new();
    for i in 0..16usize {
        clients.push(rt.spawn_blocking(move || {
            let service = proxy((41000 + i) as u16);
            let got = service.say_hello(format!("payload number {}", i));
            assert!(got.is_err());
        }));
    }
    for c in clients {
        rt.block_on(c).unwrap();
    }
}

#[test]
fn client_send_surfaces_failures() {
    // With no peer at the fixed address, both demo calls must report a
    // specific failure rather than panic or hang.
    let (first, second) = client_send();
    assert!(matches!(
        first,
        Err(RpcError::ConnectionError) | Err(RpcError::TimeoutError)
    ));
    assert!(matches!(
        second,
        Err(RpcError::ConnectionError) | Err(RpcError::TimeoutError)
    ));
}
