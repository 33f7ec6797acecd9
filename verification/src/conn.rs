//! The connection primitives the transport is built on: a handful of
//! trusted wrappers around tokio's runtime and TCP stream, each driving
//! exactly one asynchronous operation to completion from blocking code,
//! with a bounded wait.  Everything above this module is verified.

use vstd::prelude::*;
use tokio::io::{AsyncReadExt, AsyncWriteExt};

verus! {

#[verifier::external_type_specification]
#[verifier::external_body]
pub struct ExRuntime(tokio::runtime::Runtime);

#[verifier::external_type_specification]
#[verifier::external_body]
pub struct ExTcpStream(tokio::net::TcpStream);

#[verifier::external_type_specification]
#[verifier::external_body]
pub struct ExIoError(std::io::Error);

#[verifier::external_type_specification]
#[verifier::external_body]
pub struct ExElapsed(tokio::time::error::Elapsed);

/// Why a single connect, write or read produced no value: the operation
/// itself failed, or its bounded interval ran out before it finished.
pub enum IoFault {
    Failed(std::io::Error),
    TimedOut(tokio::time::error::Elapsed),
}

/// Relies on tokio's runtime builder: builds a fresh single-threaded
/// runtime that can drive network I/O and timers for one exchange.
#[verifier::external_body]
pub(crate) fn new_runtime() -> (r: Result<tokio::runtime::Runtime, std::io::Error>) {
    tokio::runtime::Builder::new_current_thread().enable_all().build()
}

/// Relies on tokio's TcpStream::connect: resolves host and port and opens
/// a TCP connection to the peer, or says why it could not.
#[verifier::external_body]
pub(crate) fn tcp_connect(
    rt: &tokio::runtime::Runtime,
    host: &str,
    port: u16,
) -> (r: Result<tokio::net::TcpStream, IoFault>) {
    let _guard = rt.enter();
    match rt.block_on(tokio::time::timeout(
        std::time::Duration::from_secs(5),
        tokio::net::TcpStream::connect((host, port)),
    )) {
        Ok(Ok(stream)) => Ok(stream),
        Ok(Err(e)) => Err(IoFault::Failed(e)),
        Err(e) => Err(IoFault::TimedOut(e)),
    }
}

/// Relies on tokio's AsyncWriteExt::write_all: writes the whole buffer to
/// the stream before returning, or says why it could not.
#[verifier::external_body]
pub(crate) fn tcp_write_all(
    rt: &tokio::runtime::Runtime,
    stream: &mut tokio::net::TcpStream,
    data: &Vec<u8>,
) -> (r: Result<(), IoFault>) {
    let _guard = rt.enter();
    match rt.block_on(tokio::time::timeout(
        std::time::Duration::from_secs(5),
        stream.write_all(data.as_slice()),
    )) {
        Ok(Ok(())) => Ok(()),
        Ok(Err(e)) => Err(IoFault::Failed(e)),
        Err(e) => Err(IoFault::TimedOut(e)),
    }
}

/// Relies on tokio's AsyncReadExt::read: reads whatever bytes are
/// available, at most 1024 of them, returning an empty vector exactly when
/// the peer has closed its half of the connection.
#[verifier::external_body]
pub(crate) fn tcp_read_chunk(
    rt: &tokio::runtime::Runtime,
    stream: &mut tokio::net::TcpStream,
) -> (r: Result<Vec<u8>, IoFault>)
    ensures
        r matches Ok(b) ==> b@.len() <= 1024,
{
    let mut buf = [0u8; 1024];
    let _guard = rt.enter();
    match rt.block_on(tokio::time::timeout(
        std::time::Duration::from_secs(5),
        stream.read(&mut buf),
    )) {
        Ok(Ok(n)) => Ok(buf[..n].to_vec()),
        Ok(Err(e)) => Err(IoFault::Failed(e)),
        Err(e) => Err(IoFault::TimedOut(e)),
    }
}

} // verus!
