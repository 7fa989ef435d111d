//! A small control utility, verified: global hotkey presses toggle an
//! in-memory boolean and each accepted press emits one fixed-shape binary
//! control message toward a fixed UDP endpoint.
//!
//! The library holds the decision logic and the wire codec; the surrounding
//! binary owns the actual event loop, sockets and status icon.

pub mod channel;
pub mod codec;
pub mod communicator;
pub mod dispatcher;
pub mod endpoint;
