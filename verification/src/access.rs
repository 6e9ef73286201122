use vstd::prelude::*;

verus! {

/// The addresses of a whitelist, each taken as its characters.
pub open spec fn address_views(allowed: Seq<String>) -> Seq<Seq<char>> {
    allowed.map_values(|a: String| a@)
}

/// The address `ip` occurs, character for character, in the whitelist.
pub open spec fn is_listed(ip: Seq<char>, allowed: Seq<Seq<char>>) -> bool {
    exists|i: int| 0 <= i < allowed.len() && allowed[i] == ip
}

/// Whether a client at `ip` may use a gateway whose whitelist is `allowed`:
/// a debug build lets every client in, a release build only listed ones.
pub open spec fn admits(debug_build: bool, ip: Seq<char>, allowed: Seq<Seq<char>>) -> bool {
    debug_build || is_listed(ip, allowed)
}

/// Decides whether the client at `ip` is allowed in, given the whitelisted
/// addresses. `debug_build` tells whether the gateway runs as a debug build,
/// in which case every client is allowed.
pub fn user_ip_allowed(ip: &str, allowed_ips: Vec<String>, debug_build: bool) -> (allowed: bool)
    ensures
        allowed == admits(debug_build, ip@, address_views(allowed_ips@)),
        debug_build ==> allowed,
        !debug_build ==> (allowed <==> exists|i: int|
            0 <= i < allowed_ips@.len() && #[trigger] allowed_ips@[i]@ == ip@),
{
    if debug_build {
        return true;
    }
    let wanted: String = ip.to_owned();
    let n: usize = allowed_ips.len();
    let mut i: usize = 0;
    while i < n
        invariant
            n == allowed_ips@.len(),
            i <= n,
            wanted@ == ip@,
            forall|j: int| 0 <= j < i ==> #[trigger] allowed_ips@[j]@ != ip@,
        decreases n - i,
    {
        if allowed_ips[i] == wanted {
            assert(address_views(allowed_ips@)[i as int] == ip@);
            return true;
        }
        i = i + 1;
    }
    assert forall|j: int| 0 <= j < n implies #[trigger] address_views(allowed_ips@)[j] != ip@ by {
        assert(allowed_ips@[j]@ != ip@);
    }
    assert(!exists|j: int| 0 <= j < allowed_ips@.len() && #[trigger] allowed_ips@[j]@ == ip@);
    false
}

/// A debug build lets every client in, whatever the whitelist holds.
pub proof fn law_debug_build_admits_everyone(ip: Seq<char>, allowed: Seq<String>)
    ensures
        admits(true, ip, address_views(allowed)),
{
}

/// In a release build, every address that occurs in the whitelist, at any
/// position and whatever its length or content, is let in.
pub proof fn law_listed_address_admitted(debug_build: bool, allowed: Seq<String>, i: int)
    requires
        0 <= i < allowed.len(),
    ensures
        admits(debug_build, allowed[i]@, address_views(allowed)),
{
    assert(address_views(allowed)[i] == allowed[i]@);
}

/// In a release build, a client is let in only if its address occurs,
/// character for character, somewhere in the whitelist.
pub proof fn law_release_admits_only_listed(ip: Seq<char>, allowed: Seq<String>)
    requires
        admits(false, ip, address_views(allowed)),
    ensures
        exists|i: int| 0 <= i < allowed.len() && #[trigger] allowed[i]@ == ip,
{
    let i = choose|i: int| 0 <= i < address_views(allowed).len() && address_views(allowed)[i] == ip;
    assert(allowed[i]@ == ip);
}

/// In a release build, admission is exactly whitelist membership.
pub proof fn law_release_admission_is_membership(ip: Seq<char>, allowed: Seq<String>)
    ensures
        admits(false, ip, address_views(allowed)) <==> exists|i: int|
            0 <= i < allowed.len() && #[trigger] allowed[i]@ == ip,
{
    if admits(false, ip, address_views(allowed)) {
        law_release_admits_only_listed(ip, allowed);
    }
    if exists|i: int| 0 <= i < allowed.len() && #[trigger] allowed[i]@ == ip {
        let i = choose|i: int| 0 <= i < allowed.len() && #[trigger] allowed[i]@ == ip;
        law_listed_address_admitted(false, allowed, i);
    }
}

/// Whitelisting more addresses never shuts out a client that was let in:
/// whoever the whitelist `allowed` admits, `allowed` with `more` added
/// before or after it admits too.
pub proof fn law_whitelist_extension(debug_build: bool, ip: Seq<char>, allowed: Seq<Seq<char>>, more: Seq<Seq<char>>)
    requires
        admits(debug_build, ip, allowed),
    ensures
        admits(debug_build, ip, allowed + more),
        admits(debug_build, ip, more + allowed),
{
    if !debug_build {
        let i = choose|i: int| 0 <= i < allowed.len() && allowed[i] == ip;
        assert((allowed + more)[i] == ip);
        assert((more + allowed)[more.len() + i] == ip);
    }
}

/// Only which addresses a whitelist holds matters, not their order nor how
/// often each occurs: two whitelists with the same addresses admit the same
/// clients.
pub proof fn law_whitelist_order_irrelevant(debug_build: bool, ip: Seq<char>, a: Seq<Seq<char>>, b: Seq<Seq<char>>)
    requires
        a.to_set() == b.to_set(),
    ensures
        admits(debug_build, ip, a) == admits(debug_build, ip, b),
{
    assert(is_listed(ip, a) == a.contains(ip));
    assert(is_listed(ip, b) == b.contains(ip));
    assert(a.to_set().contains(ip) == a.contains(ip));
    assert(b.to_set().contains(ip) == b.contains(ip));
}

/// A release build with an empty whitelist, as in the default settings,
/// lets no client in.
pub proof fn law_empty_whitelist_admits_no_one(ip: Seq<char>, allowed: Seq<String>)
    requires
        allowed.len() == 0,
    ensures
        !admits(false, ip, address_views(allowed)),
{
}

} // verus!
