//! Remote control for a long-lived media-player process over a line-delimited
//! JSON request/response protocol with asynchronous event notifications.
//!
//! The heart of the crate is the reactor: the single owner of the pipe
//! connection that frames incoming bytes into protocol messages, correlates
//! replies to outstanding requests, routes property-change events to
//! subscribers, and serializes all outgoing writes.

pub mod channels;
pub mod client;
pub mod correlation;
pub mod framer;
pub mod message;
pub mod qr;
pub mod reactor;
pub mod server;
pub mod wire;
