use vstd::prelude::*;

verus! {

/// An answer an endpoint gives: an HTTP status code and a text body.
#[derive(Debug)]
pub struct Reply {
    pub status: u16,
    pub body: String,
}

/// `r` carries status `status` and exactly the body `body`.
pub open spec fn reply_is(r: Reply, status: u16, body: Seq<char>) -> bool {
    r.status == status && r.body@ == body
}

/// The answer of the home page `/`, which tells that the gateway is up.
pub open spec fn is_home_reply(r: Reply) -> bool {
    reply_is(r, 200, "OK"@)
}

/// The answer to a client that the whitelist keeps out.
pub open spec fn is_forbidden_reply(r: Reply) -> bool {
    reply_is(r, 403, "Unauthorized access"@)
}

/// The answer to a message that was taken and handed upstream.
pub open spec fn is_accepted_reply(r: Reply) -> bool {
    reply_is(r, 202, ""@)
}

/// The home page's answer: `200 OK` with the body `OK`.
pub fn home_reply() -> (r: Reply)
    ensures
        is_home_reply(r),
{
    Reply { status: 200, body: String::from_str("OK") }
}

/// The answer to a client outside the whitelist: `403` with the body
/// `Unauthorized access`.
pub fn forbidden_reply() -> (r: Reply)
    ensures
        is_forbidden_reply(r),
{
    Reply { status: 403, body: String::from_str("Unauthorized access") }
}

/// The answer to a message that was handed upstream: `202` with an empty body.
pub fn accepted_reply() -> (r: Reply)
    ensures
        is_accepted_reply(r),
{
    Reply { status: 202, body: String::from_str("") }
}

} // verus!
