use vstd::prelude::*;

use crate::access::{address_views, admits, user_ip_allowed};
use crate::reply::{accepted_reply, forbidden_reply, is_accepted_reply, is_forbidden_reply, Reply};
use crate::server::{route_is, Endpoint, Method, Route};

verus! {

/// Settings of the HTTP gateway: the client addresses it accepts messages from.
#[derive(Clone, Debug)]
pub struct HTTPSettings {
    pub whitelisted_ips: Vec<String>,
}

impl Default for HTTPSettings {
    /// No address is whitelisted.
    fn default() -> (s: Self)
        ensures
            s.whitelisted_ips@.len() == 0,
    {
        HTTPSettings { whitelisted_ips: Vec::new() }
    }
}

impl HTTPSettings {
    /// The whitelisted addresses, each taken as its characters.
    pub open spec fn whitelist(self) -> Seq<Seq<char>> {
        address_views(self.whitelisted_ips@)
    }

    /// The whitelist holds every configured address, in order: the address
    /// at each position is the configured one at that position.
    pub proof fn law_whitelist_is_every_address(self)
        ensures
            self.whitelist().len() == self.whitelisted_ips@.len(),
            forall|i: int| 0 <= i < self.whitelisted_ips@.len()
                ==> #[trigger] self.whitelist()[i] == self.whitelisted_ips@[i]@,
    {
    }

    /// The settings a gateway starts with: those it was given, or the default
    /// (an empty whitelist) when it was given none.
    pub fn or_default(settings: Option<HTTPSettings>) -> (s: HTTPSettings)
        ensures
            match settings {
                Some(given) => s == given,
                None => s.whitelisted_ips@.len() == 0,
            },
    {
        match settings {
            Some(given) => given,
            None => HTTPSettings::default(),
        }
    }
}

/// What the HTTP gateway does with a posted message.
#[derive(Debug)]
pub struct HttpDecision {
    /// Whether the message is handed upstream.
    pub forward: bool,
    /// The answer the client gets.
    pub reply: Reply,
}

/// The HTTP gateway's decision on a message posted by the client at `ip`:
/// an admitted client's message goes upstream and is answered `202`, any
/// other client is answered `403 Unauthorized access` and its message dropped.
pub fn http_decision(settings: &HTTPSettings, ip: &str, debug_build: bool) -> (d: HttpDecision)
    ensures
        d.forward == admits(debug_build, ip@, settings.whitelist()),
        debug_build ==> d.forward,
        !debug_build ==> (d.forward <==> exists|i: int|
            0 <= i < settings.whitelisted_ips@.len() && #[trigger] settings.whitelisted_ips@[i]@ == ip@),
        d.forward ==> is_accepted_reply(d.reply),
        !d.forward ==> is_forbidden_reply(d.reply),
{
    let whitelisted_ips = settings.whitelisted_ips.clone();
    if !user_ip_allowed(ip, whitelisted_ips, debug_build) {
        return HttpDecision { forward: false, reply: forbidden_reply() };
    }
    HttpDecision { forward: true, reply: accepted_reply() }
}

/// The routes of the HTTP gateway: the home page on `GET /`, and message
/// publishing on `POST /http` and `POST /rest`.
pub fn routes() -> (r: Vec<Route>)
    ensures
        r@.len() == 3,
        route_is(r@[0], Method::Get, "/"@, Endpoint::Home),
        route_is(r@[1], Method::Post, "/http"@, Endpoint::Publish),
        route_is(r@[2], Method::Post, "/rest"@, Endpoint::Publish),
{
    let mut r: Vec<Route> = Vec::new();
    r.push(Route { method: Method::Get, path: String::from_str("/"), endpoint: Endpoint::Home });
    r.push(Route { method: Method::Post, path: String::from_str("/http"), endpoint: Endpoint::Publish });
    r.push(Route { method: Method::Post, path: String::from_str("/rest"), endpoint: Endpoint::Publish });
    r
}

} // verus!
