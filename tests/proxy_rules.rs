use chost::dispatch::{route, Route, ServerConfig};
use chost::http::Method;
use chost::proxy::{find_proxy_rule, parse_proxy_list, parse_proxy_rule, proxy_response, proxy_target, ProxyRule};

fn rule(prefix: &str, origin: &str) -> ProxyRule {
    ProxyRule { prefix: prefix.to_string(), origin: origin.to_string() }
}

#[test]
fn parses_well_formed_entry() {
    let r = parse_proxy_rule("/api|http://localhost:9000").ok().unwrap();
    assert_eq!(r.prefix, "/api");
    assert_eq!(r.origin, "http://localhost:9000");
}

#[test]
fn rejects_malformed_entries() {
    for bad in ["/api", "/api|a|b", "|http://x", ""] {
        let e = parse_proxy_rule(bad).err().unwrap();
        assert_eq!(e.entry, bad);
    }
}

#[test]
fn list_reports_first_bad_entry() {
    let entries = vec!["/a|http://a".to_string(), "oops".to_string(), "also|bad|".to_string()];
    assert_eq!(parse_proxy_list(&entries).err().unwrap().entry, "oops");
    let good = vec!["/a|http://a".to_string(), "/b|http://b/".to_string()];
    let rules = parse_proxy_list(&good).ok().unwrap();
    assert_eq!(rules.len(), 2);
    assert_eq!(rules[1].prefix, "/b");
    assert_eq!(rules[1].origin, "http://b/");
    assert!(ServerConfig::new(".".to_string(), true, 80, &entries).is_err());
}

#[test]
fn first_matching_rule_wins() {
    let rules = vec![rule("/api", "http://one:1"), rule("/api/v2", "http://two:2")];
    assert_eq!(find_proxy_rule("/api/v2/x", &rules), Some(0));
    assert_eq!(find_proxy_rule("/ap", &rules), None);
    let t = proxy_response("/api/v2/x", &rules).unwrap();
    assert_eq!(t.uri, "http://one:1/api/v2/x");
    assert_eq!(t.authority, "one:1");
    assert!(proxy_response("/static/a.js", &rules).is_none());
}

#[test]
fn target_keeps_prefix_and_strips_one_slash() {
    let t = proxy_target(&rule("/ws", "https://host:9001/"), "/ws/chat?x=1");
    assert_eq!(t.uri, "https://host:9001/ws/chat?x=1");
    assert_eq!(t.authority, "host:9001/");
    let t = proxy_target(&rule("/ws", "localhost:9001//"), "/ws");
    assert_eq!(t.uri, "localhost:9001//ws");
    assert_eq!(t.authority, "localhost:9001//");
}

#[test]
fn routing_prefers_proxy_then_static() {
    let config = ServerConfig::new("/site".to_string(), true, 7878, &vec!["/api|http://localhost:9000".to_string()]).ok().unwrap();
    match route(&config, Method::Get, "/api/users") {
        Route::Forward(t) => assert_eq!(t.uri, "http://localhost:9000/api/users"),
        _ => panic!("expected forwarding"),
    }
    match route(&config, Method::Other, "/api/users") {
        Route::Forward(t) => assert_eq!(t.authority, "localhost:9000"),
        _ => panic!("expected forwarding"),
    }
    match route(&config, Method::Get, "/apx") {
        Route::Static(p) => assert_eq!(p, "apx"),
        _ => panic!("expected static serving"),
    }
    match route(&config, Method::Options, "/api/users") {
        Route::Reply(r) => assert_eq!(r.status, 204),
        _ => panic!("expected a reply"),
    }
}
