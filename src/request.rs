use vstd::prelude::*;

verus! {

/// The method of an incoming request, as far as the proxy tells methods apart.
#[derive(Clone, Copy, Debug, PartialEq, Eq, Structural)]
pub enum Method {
    Get,
    Head,
    Options,
    Other,
}

/// One incoming request: its method and the parts of its URI that the proxy reads.
#[derive(Clone, Debug)]
pub struct IncomingRequest {
    pub method: Method,
    /// The path, `/`-delimited.
    pub path: String,
    /// The scheme of the request URI, where it carries one.
    pub scheme: Option<String>,
    /// The query string, without its `?`.
    pub query: Option<String>,
}

} // verus!
