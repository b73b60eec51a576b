use hunter::config::Config;
use hunter::error::Error;
use hunter::log_level::LogLevel;
use hunter::node::ServerNode;

fn node(name: &str, addr: &str, port: u16, password: &str) -> ServerNode {
    ServerNode {
        name: name.to_string(),
        addr: addr.to_string(),
        port,
        password: password.to_string(),
    }
}

#[test]
fn default_catalog_values() {
    let c = Config::default();
    assert_eq!(c.local_addr, "127.0.0.1");
    assert_eq!(c.local_port, 1086);
    assert_eq!(c.log_level, LogLevel::Info);
    assert_eq!(
        c.pac,
        "https://mirror.ghproxy.com/https://raw.githubusercontent.com/thep0y/pac/main/blacklist.pac"
    );
    assert!(c.nodes.is_empty());
}

#[test]
fn add_two_distinct_nodes_both_present() {
    let mut c = Config::default();
    c.add_server_node(&node("tokyo", "1.2.3.4", 443, "p"));
    c.add_server_node(&node("osaka", "5.6.7.8", 443, "q"));
    assert_eq!(c.nodes.len(), 2);
    assert_eq!(c.nodes[0].name, "tokyo");
    assert_eq!(c.nodes[1].name, "osaka");
}

#[test]
fn add_same_name_is_silent_no_op() {
    let mut c = Config::default();
    c.add_server_node(&node("tokyo", "1.2.3.4", 443, "p"));
    c.add_server_node(&node("tokyo", "9.9.9.9", 80, "x"));
    assert_eq!(c.nodes.len(), 1);
    assert_eq!(c.nodes[0].addr, "1.2.3.4");
}

#[test]
fn add_same_addr_is_silent_no_op() {
    let mut c = Config::default();
    c.add_server_node(&node("tokyo", "1.2.3.4", 443, "p"));
    c.add_server_node(&node("kyoto", "1.2.3.4", 80, "x"));
    assert_eq!(c.nodes.len(), 1);
    assert_eq!(c.nodes[0].name, "tokyo");
}

#[test]
fn update_at_len_behaves_as_add() {
    let mut a = Config::default();
    let mut b = Config::default();
    a.add_server_node(&node("tokyo", "1.2.3.4", 443, "p"));
    b.add_server_node(&node("tokyo", "1.2.3.4", 443, "p"));

    let fresh = node("osaka", "5.6.7.8", 443, "q");
    let len = a.nodes.len();
    a.update_server_node(len, fresh.clone()).unwrap();
    b.add_server_node(&fresh);
    assert_eq!(a.nodes, b.nodes);

    // A clash makes the appended update a no-op, exactly as with add.
    let clashing = node("tokyo", "8.8.8.8", 1, "z");
    let len = a.nodes.len();
    a.update_server_node(len, clashing.clone()).unwrap();
    b.add_server_node(&clashing);
    assert_eq!(a.nodes, b.nodes);
    assert_eq!(a.nodes.len(), 2);
}

#[test]
fn update_past_the_end_is_bounds_error_and_no_change() {
    let mut c = Config::default();
    c.add_server_node(&node("tokyo", "1.2.3.4", 443, "p"));
    let r = c.update_server_node(2, node("osaka", "5.6.7.8", 443, "q"));
    match r {
        Err(Error::Config(m)) => assert_eq!(m, "server node index out of bounds: 2"),
        other => panic!("expected a Config error, got {:?}", other),
    }
    assert_eq!(c.nodes.len(), 1);
    assert_eq!(c.nodes[0].name, "tokyo");
}

#[test]
fn update_in_place_replaces_entry() {
    let mut c = Config::default();
    c.add_server_node(&node("tokyo", "1.2.3.4", 443, "p"));
    c.add_server_node(&node("osaka", "5.6.7.8", 443, "q"));
    c.update_server_node(0, node("kyoto", "9.9.9.9", 8443, "r")).unwrap();
    assert_eq!(c.nodes.len(), 2);
    assert_eq!(c.nodes[0].name, "kyoto");
    assert_eq!(c.nodes[1].name, "osaka");
}

#[test]
fn setters_update_fields() {
    let mut c = Config::default();
    c.set_local_addr("0.0.0.0");
    c.set_local_port(7891);
    c.set_pac("http://example.org/pac");
    c.set_log_level(LogLevel::Warn);
    assert_eq!(c.local_addr, "0.0.0.0");
    assert_eq!(c.local_port, 7891);
    assert_eq!(c.pac(), "http://example.org/pac");
    assert_eq!(c.log_level, LogLevel::Warn);
}

#[test]
fn local_socks5_addr_format() {
    let c = Config::default();
    assert_eq!(c.local_socks5_addr(), "socks5h://127.0.0.1:1086");
}

#[test]
fn set_server_node_unknown_name_is_config_error() {
    let mut c = Config::default();
    c.add_server_node(&node("tokyo", "1.2.3.4", 443, "p"));
    let r = c.set_server_node("berlin", "trojan.log");
    match r {
        Err(Error::Config(m)) => assert_eq!(m, "server node not found: berlin"),
        other => panic!("expected a Config error, got {:?}", other),
    }
}

#[test]
fn set_server_node_known_name_yields_text() {
    let mut c = Config::default();
    c.add_server_node(&node("tokyo", "1.2.3.4", 443, "p"));
    let text = c.set_server_node("tokyo", "trojan.log").unwrap();
    assert!(text.contains("\"remote_addr\": \"1.2.3.4\""));
    assert!(text.contains("\"remote_port\": 443"));
}
