//! The decision core of an edge gateway: it turns a client's selector into an
//! upstream endpoint, says what a tunnel session does on each event, and
//! merges the answers of several DNS-over-HTTPS resolvers.
//!
//! Nothing here performs I/O. Where the gateway has to wait for the outside
//! world (the cache, the table source, the duplex channel) the library is
//! a state machine: it names the next action, and the caller hands back what
//! came of it.

pub mod cache;
pub mod doh;
pub mod endpoint;
pub mod error;
pub mod gateway;
pub mod resolver;
pub mod selector;
pub mod session;
pub mod table;
pub mod text;
