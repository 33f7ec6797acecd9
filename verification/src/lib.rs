//! A minimal RPC client: a typed service proxy whose calls are framed,
//! sent over a fresh TCP connection, and whose replies are decoded back
//! into values, together with a pair of small in-memory object models.

pub mod client;
pub mod codec;
pub mod composite_entity;
pub mod conn;
pub mod message;
pub mod transport;
pub mod visitor;
