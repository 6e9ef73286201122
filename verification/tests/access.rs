use rhiaqey_gateways::access::user_ip_allowed;

fn list(items: &[&str]) -> Vec<String> {
    items.iter().map(|s| s.to_string()).collect()
}

#[test]
fn listed_address_is_allowed_in_release() {
    assert!(user_ip_allowed("10.0.0.1", list(&["192.168.0.1", "10.0.0.1"]), false));
}

#[test]
fn unlisted_address_is_refused_in_release() {
    assert!(!user_ip_allowed("10.0.0.2", list(&["192.168.0.1", "10.0.0.1"]), false));
}

#[test]
fn match_is_exact_not_by_prefix() {
    assert!(!user_ip_allowed("10.0.0.10", list(&["10.0.0.1"]), false));
    assert!(!user_ip_allowed("10.0.0.1", list(&["10.0.0.10"]), false));
    assert!(!user_ip_allowed("10.0.0.1 ", list(&["10.0.0.1"]), false));
}

#[test]
fn empty_whitelist_refuses_everyone_in_release() {
    assert!(!user_ip_allowed("127.0.0.1", Vec::new(), false));
    assert!(!user_ip_allowed("", Vec::new(), false));
}

#[test]
fn debug_build_allows_everyone() {
    assert!(user_ip_allowed("127.0.0.1", Vec::new(), true));
    assert!(user_ip_allowed("8.8.8.8", list(&["10.0.0.1"]), true));
}

#[test]
fn extending_the_whitelist_keeps_admitted_clients() {
    let base = list(&["10.0.0.1"]);
    assert!(user_ip_allowed("10.0.0.1", base.clone(), false));
    let mut more = list(&["172.16.0.1"]);
    more.extend(base.clone());
    assert!(user_ip_allowed("10.0.0.1", more, false));
    let mut after = base;
    after.push("172.16.0.1".to_string());
    assert!(user_ip_allowed("10.0.0.1", after, false));
}

#[test]
fn order_and_repetition_of_the_whitelist_do_not_matter() {
    let a = list(&["1.1.1.1", "2.2.2.2"]);
    let b = list(&["2.2.2.2", "1.1.1.1", "2.2.2.2"]);
    for ip in ["1.1.1.1", "2.2.2.2", "3.3.3.3"] {
        assert_eq!(user_ip_allowed(ip, a.clone(), false), user_ip_allowed(ip, b.clone(), false));
    }
}

#[test]
fn ipv6_address_is_compared_as_text() {
    assert!(user_ip_allowed("::1", list(&["::1"]), false));
    assert!(!user_ip_allowed("::1", list(&["0:0:0:0:0:0:0:1"]), false));
}
