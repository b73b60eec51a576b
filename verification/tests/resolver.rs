use hunter::config::Config;
use hunter::node::ServerNode;
use hunter::trojan::TrojanConfig;

fn node(name: &str, addr: &str, port: u16, password: &str) -> ServerNode {
    ServerNode {
        name: name.to_string(),
        addr: addr.to_string(),
        port,
        password: password.to_string(),
    }
}

#[test]
fn trojan_config_from_node_carries_the_triple() {
    let n = node("tokyo", "1.2.3.4", 443, "p");
    let t = TrojanConfig::from_node(&n);
    assert_eq!(t.remote_addr(), "1.2.3.4");
    assert_eq!(t.remote_port(), 443);
    assert_eq!(t.password(), "p");
    assert_eq!(t.password.len(), 1);
}

#[test]
fn resolver_round_trip_finds_the_node() {
    let mut c = Config::default();
    c.add_server_node(&node("tokyo", "1.2.3.4", 443, "p"));
    c.add_server_node(&node("osaka", "5.6.7.8", 8443, "q"));

    let t = TrojanConfig::from_node(&c.nodes[1]);
    let found = c.get_using_server_node(Some(&t)).unwrap();
    assert_eq!(found, c.nodes[1]);
}

#[test]
fn resolver_after_removal_returns_none() {
    let mut c = Config::default();
    c.add_server_node(&node("tokyo", "1.2.3.4", 443, "p"));
    let t = TrojanConfig::from_node(&c.nodes[0]);

    c.nodes.clear();
    assert!(c.get_using_server_node(Some(&t)).is_none());
}

#[test]
fn resolver_missing_file_returns_none() {
    let mut c = Config::default();
    c.add_server_node(&node("tokyo", "1.2.3.4", 443, "p"));
    assert!(c.get_using_server_node(None).is_none());
}

#[test]
fn resolver_needs_the_whole_triple() {
    let mut c = Config::default();
    c.add_server_node(&node("tokyo", "1.2.3.4", 443, "p"));

    // Same endpoint, different credential: no match.
    let t = TrojanConfig {
        remote_addr: "1.2.3.4".to_string(),
        remote_port: 443,
        password: vec!["wrong".to_string()],
    };
    assert!(c.get_using_server_node(Some(&t)).is_none());

    // Same credential, different port: no match.
    let t = TrojanConfig {
        remote_addr: "1.2.3.4".to_string(),
        remote_port: 80,
        password: vec!["p".to_string()],
    };
    assert!(c.get_using_server_node(Some(&t)).is_none());
}

#[test]
fn resolver_takes_the_first_match_in_order() {
    // Two nodes that differ only in name cannot both enter through add, so
    // build the vector directly: the resolver scans in catalog order.
    let mut c = Config::default();
    c.nodes.push(node("first", "1.2.3.4", 443, "p"));
    c.nodes.push(node("second", "1.2.3.4", 443, "p"));
    let t = TrojanConfig {
        remote_addr: "1.2.3.4".to_string(),
        remote_port: 443,
        password: vec!["p".to_string()],
    };
    let found = c.get_using_server_node(Some(&t)).unwrap();
    assert_eq!(found.name, "first");
}
