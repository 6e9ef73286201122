use rhiaqey_gateways::http::{http_decision, routes as http_routes, HTTPSettings};
use rhiaqey_gateways::reply::{accepted_reply, forbidden_reply, home_reply};
use rhiaqey_gateways::server::{listen_host, Endpoint, Method};
use rhiaqey_gateways::websocket::{routes as websocket_routes, upgrade_decision, UpgradeDecision, WebSocketSettings};

#[test]
fn home_page_answers_ok() {
    let r = home_reply();
    assert_eq!(r.status, 200);
    assert_eq!(r.body, "OK");
}

#[test]
fn forbidden_and_accepted_replies() {
    let f = forbidden_reply();
    assert_eq!(f.status, 403);
    assert_eq!(f.body, "Unauthorized access");
    let a = accepted_reply();
    assert_eq!(a.status, 202);
    assert_eq!(a.body, "");
}

#[test]
fn http_settings_default_is_empty() {
    assert!(HTTPSettings::default().whitelisted_ips.is_empty());
    assert!(HTTPSettings::or_default(None).whitelisted_ips.is_empty());
    let given = HTTPSettings { whitelisted_ips: vec!["10.0.0.1".to_string()] };
    assert_eq!(HTTPSettings::or_default(Some(given)).whitelisted_ips, vec!["10.0.0.1".to_string()]);
}

#[test]
fn websocket_settings_default_is_empty() {
    assert!(WebSocketSettings::default().whitelisted_ips.is_empty());
    assert!(WebSocketSettings::or_default(None).whitelisted_ips.is_empty());
    let given = WebSocketSettings { whitelisted_ips: vec!["10.0.0.1".to_string()] };
    assert_eq!(WebSocketSettings::or_default(Some(given)).whitelisted_ips, vec!["10.0.0.1".to_string()]);
}

#[test]
fn http_whitelisted_client_is_forwarded_and_accepted() {
    let s = HTTPSettings { whitelisted_ips: vec!["10.0.0.1".to_string()] };
    let d = http_decision(&s, "10.0.0.1", false);
    assert!(d.forward);
    assert_eq!(d.reply.status, 202);
    assert_eq!(d.reply.body, "");
}

#[test]
fn http_other_client_is_refused_and_not_forwarded() {
    let s = HTTPSettings { whitelisted_ips: vec!["10.0.0.1".to_string()] };
    let d = http_decision(&s, "10.0.0.2", false);
    assert!(!d.forward);
    assert_eq!(d.reply.status, 403);
    assert_eq!(d.reply.body, "Unauthorized access");
}

#[test]
fn http_default_settings_refuse_in_release_and_admit_in_debug() {
    let s = HTTPSettings::default();
    assert!(!http_decision(&s, "127.0.0.1", false).forward);
    assert!(http_decision(&s, "127.0.0.1", true).forward);
}

#[test]
fn websocket_whitelisted_client_is_upgraded() {
    let s = WebSocketSettings { whitelisted_ips: vec!["10.0.0.1".to_string()] };
    assert!(matches!(upgrade_decision(&s, "10.0.0.1", false), UpgradeDecision::Upgrade));
}

#[test]
fn websocket_other_client_is_refused() {
    let s = WebSocketSettings { whitelisted_ips: vec!["10.0.0.1".to_string()] };
    match upgrade_decision(&s, "10.0.0.9", false) {
        UpgradeDecision::Refuse(r) => {
            assert_eq!(r.status, 403);
            assert_eq!(r.body, "Unauthorized access");
        }
        UpgradeDecision::Upgrade => panic!("an unlisted client was upgraded"),
    }
}

#[test]
fn websocket_debug_build_upgrades_everyone() {
    let s = WebSocketSettings::default();
    assert!(matches!(upgrade_decision(&s, "8.8.8.8", true), UpgradeDecision::Upgrade));
}

#[test]
fn http_routes_table() {
    let r = http_routes();
    assert_eq!(r.len(), 3);
    assert_eq!((r[0].method, r[0].path.as_str(), r[0].endpoint), (Method::Get, "/", Endpoint::Home));
    assert_eq!((r[1].method, r[1].path.as_str(), r[1].endpoint), (Method::Post, "/http", Endpoint::Publish));
    assert_eq!((r[2].method, r[2].path.as_str(), r[2].endpoint), (Method::Post, "/rest", Endpoint::Publish));
}

#[test]
fn websocket_routes_table() {
    let r = websocket_routes();
    assert_eq!(r.len(), 3);
    assert_eq!((r[0].method, r[0].path.as_str(), r[0].endpoint), (Method::Get, "/", Endpoint::Home));
    assert_eq!((r[1].method, r[1].path.as_str(), r[1].endpoint), (Method::Get, "/ws", Endpoint::Upgrade));
    assert_eq!((r[2].method, r[2].path.as_str(), r[2].endpoint), (Method::Get, "/websocket", Endpoint::Upgrade));
}

#[test]
fn listen_host_defaults_to_every_interface() {
    assert_eq!(listen_host(None), "0.0.0.0");
    assert_eq!(listen_host(Some("127.0.0.1".to_string())), "127.0.0.1");
}
