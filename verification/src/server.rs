use vstd::prelude::*;

verus! {

/// The HTTP method a route answers.
#[derive(PartialEq, Eq, Structural, Clone, Copy, Debug)]
pub enum Method {
    Get,
    Post,
}

/// What a route does.
#[derive(PartialEq, Eq, Structural, Clone, Copy, Debug)]
pub enum Endpoint {
    /// Tells that the gateway is up.
    Home,
    /// Takes a gateway message in the request body and hands it upstream.
    Publish,
    /// Turns the request into a WebSocket connection.
    Upgrade,
}

/// One route of a gateway's server.
#[derive(Debug)]
pub struct Route {
    pub method: Method,
    pub path: String,
    pub endpoint: Endpoint,
}

/// `r` answers `method` requests on `path` with `endpoint`.
pub open spec fn route_is(r: Route, method: Method, path: Seq<char>, endpoint: Endpoint) -> bool {
    r.method == method && r.path@ == path && r.endpoint == endpoint
}

/// The address a gateway listens on when its configuration names none.
pub open spec fn default_host() -> Seq<char> {
    "0.0.0.0"@
}

/// The host a gateway's server binds to: the configured host, or `0.0.0.0`
/// (every interface) when the configuration names none.
pub fn listen_host(configured: Option<String>) -> (host: String)
    ensures
        host@ == match configured {
            Some(h) => h@,
            None => default_host(),
        },
{
    match configured {
        Some(h) => h,
        None => String::from_str("0.0.0.0"),
    }
}

} // verus!
