//! A path-addressed HTTP forwarding proxy: the decision logic.
//!
//! The target of a request is written in its path (`GET /<host>/<path>?<query>`).
//! This crate translates such a path into an outbound URI, follows a bounded
//! number of redirects, and decides per method what the answer is. The network
//! work itself is done by the caller, which feeds each fetched response back in.

pub mod request;
pub mod dispatch;
pub mod redirect;
pub mod translate;
