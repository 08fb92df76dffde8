//! A peer-to-peer port-forwarding tunnel: the wire codec, the authorizer, the
//! host book and the session state machines, with their contracts.
//!
//! The library decides; it performs no I/O. A program around it reads the
//! files, keeps the sockets and the transport, and hands plain values in.

pub mod auth;
pub mod cli;
pub mod client;
pub mod close;
pub mod config;
pub mod constants;
pub mod format;
pub mod hosts;
pub mod identity;
pub mod keys;
pub mod protocol;
pub mod server;
pub mod tunnel;

pub use close::CloseReason;
pub use identity::NodeIdentity;
pub use protocol::Protocol;
