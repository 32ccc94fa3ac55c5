//! A typed client core for a cryptocurrency node's two JSON-RPC surfaces
//! (a chain daemon and a wallet).
//!
//! This crate holds the marshaling layer: the wire codecs (hex byte strings,
//! the node's status envelope, the transfer-priority wire encoding, sub-address
//! indices), the parameter payload builder, the height-range translation, and
//! the classification of node error responses. Each RPC method is split into a
//! parameter builder, a response decoder, and a driver that sends the built
//! payload through a [`transport::Caller`] capability. The network transport
//! itself lives outside this crate behind that capability.

pub mod client;
pub mod codec;
pub mod daemon;
pub mod error;
pub mod wallet;
pub mod height;
pub mod models;
pub mod params;
pub mod transport;
pub mod hex;
pub mod json;
pub mod text;
