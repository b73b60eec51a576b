use hunter::config::Config;
use hunter::desktop::Desktop;
use hunter::error::Error;
use hunter::node::ServerNode;
use hunter::proxy::{
    kill_command, AutostartAction, Platform, ProcessInfo, Proxy, TrojanProcessState,
};
use hunter::trojan::{TrojanConfig, TrojanFileState};

const CFG: &str = "/home/u/.config/hunter/config.json";

fn node(name: &str, addr: &str, port: u16, password: &str) -> ServerNode {
    ServerNode {
        name: name.to_string(),
        addr: addr.to_string(),
        port,
        password: password.to_string(),
    }
}

fn supervisor() -> Proxy {
    Proxy::new(
        Platform::Linux { desktop: Desktop::GNOME },
        "/home/u/.cache/hunter/trojan-go".to_string(),
        "/home/u/.config/autostart/trojan-go.desktop".to_string(),
        CFG.to_string(),
    )
}

fn catalog_with_tokyo() -> Config {
    let mut c = Config::default();
    c.add_server_node(&node("tokyo", "1.2.3.4", 443, "p"));
    c
}

fn managed_process(pid: u32) -> ProcessInfo {
    ProcessInfo {
        pid,
        cmd: vec![
            "/home/u/.cache/hunter/trojan-go".to_string(),
            "-config".to_string(),
            CFG.to_string(),
        ],
    }
}

#[test]
fn inspect_empty_snapshot_is_none() {
    let mut p = supervisor();
    let c = catalog_with_tokyo();
    let r = p
        .get_trojan_process_state(&Vec::new(), &c, &TrojanFileState::Missing)
        .unwrap();
    assert!(r.is_none());
    assert_eq!(p.child_id, 0);
    assert!(!p.daemon);
}

#[test]
fn inspect_foreign_arguments_is_other() {
    let mut p = supervisor();
    let c = catalog_with_tokyo();
    let procs = vec![ProcessInfo {
        pid: 321,
        cmd: vec!["trojan-go".to_string(), "-config".to_string(), "/elsewhere.json".to_string()],
    }];
    let t = TrojanFileState::Parsed(TrojanConfig::from_node(&c.nodes[0]));
    let r = p.get_trojan_process_state(&procs, &c, &t).unwrap();
    assert!(matches!(r, Some(TrojanProcessState::Other { pid: 321 })));
    assert_eq!(p.child_id, 0);
    assert!(!p.daemon);
}

#[test]
fn inspect_extra_arguments_is_other() {
    // Slots 1 and 2 match, but a trailing argument makes the command line
    // foreign: the invocation must be exactly `-config <path>`.
    let mut p = supervisor();
    let c = catalog_with_tokyo();
    let mut proc = managed_process(808);
    proc.cmd.push("-extra".to_string());
    let procs = vec![proc];
    let r = p
        .get_trojan_process_state(&procs, &c, &TrojanFileState::Missing)
        .unwrap();
    assert!(matches!(r, Some(TrojanProcessState::Other { pid: 808 })));
    assert_eq!(p.child_id, 0);
    assert!(!p.daemon);
}

#[test]
fn inspect_short_command_line_is_other() {
    let mut p = supervisor();
    let c = catalog_with_tokyo();
    let procs = vec![ProcessInfo { pid: 77, cmd: vec!["trojan-go".to_string()] }];
    let r = p
        .get_trojan_process_state(&procs, &c, &TrojanFileState::Missing)
        .unwrap();
    assert!(matches!(r, Some(TrojanProcessState::Other { pid: 77 })));
}

#[test]
fn inspect_unresolved_node_is_invalid() {
    let mut p = supervisor();
    let c = catalog_with_tokyo();
    let procs = vec![managed_process(555)];
    // The external file references a node that is no longer in the catalog.
    let t = TrojanFileState::Parsed(TrojanConfig {
        remote_addr: "9.9.9.9".to_string(),
        remote_port: 1,
        password: vec!["gone".to_string()],
    });
    let r = p.get_trojan_process_state(&procs, &c, &t).unwrap();
    assert!(matches!(r, Some(TrojanProcessState::Invalid { pid: 555 })));
    assert_eq!(p.child_id, 0);
    assert!(!p.daemon);
}

#[test]
fn inspect_missing_file_is_invalid() {
    let mut p = supervisor();
    let c = catalog_with_tokyo();
    let procs = vec![managed_process(555)];
    let r = p
        .get_trojan_process_state(&procs, &c, &TrojanFileState::Missing)
        .unwrap();
    assert!(matches!(r, Some(TrojanProcessState::Invalid { pid: 555 })));
}

#[test]
fn inspect_malformed_file_is_deserialize_error() {
    let mut p = supervisor();
    let c = catalog_with_tokyo();
    let procs = vec![managed_process(555)];
    let r = p.get_trojan_process_state(&procs, &c, &TrojanFileState::Malformed);
    assert!(matches!(r, Err(Error::Deserialize(_))));
    assert_eq!(p.child_id, 0);
}

#[test]
fn inspect_resolved_node_is_daemon_and_adopts_pid() {
    let mut p = supervisor();
    let c = catalog_with_tokyo();
    let procs = vec![managed_process(4242)];
    let t = TrojanFileState::Parsed(TrojanConfig::from_node(&c.nodes[0]));
    let r = p.get_trojan_process_state(&procs, &c, &t).unwrap();
    match r {
        Some(TrojanProcessState::Daemon(n)) => assert_eq!(n, c.nodes[0]),
        other => panic!("expected a daemon classification, got {:?}", other),
    }
    assert_eq!(p.child_id, 4242);
    assert!(p.daemon);
}

#[test]
fn inspect_takes_first_process_of_snapshot() {
    let mut p = supervisor();
    let c = catalog_with_tokyo();
    let procs = vec![
        ProcessInfo { pid: 9, cmd: vec!["trojan-go".to_string()] },
        managed_process(10),
    ];
    let r = p
        .get_trojan_process_state(&procs, &c, &TrojanFileState::Missing)
        .unwrap();
    assert!(matches!(r, Some(TrojanProcessState::Other { pid: 9 })));
}

#[test]
fn terminate_without_child_is_no_op_success() {
    let mut p = supervisor();
    assert_eq!(p.child_id, 0);
    let to_kill = p.terminate(None);
    assert_eq!(to_kill, 0);
    assert!(kill_command(&p.platform, to_kill).is_none());
    assert_eq!(p.child_id, 0);
    assert!(!p.daemon);
}

#[test]
fn terminate_resets_bookkeeping() {
    let mut p = supervisor();
    p.record_launch(700);
    assert_eq!(p.child_id, 700);
    assert!(p.daemon);
    let to_kill = p.terminate(None);
    assert_eq!(to_kill, 700);
    assert_eq!(p.child_id, 0);
    assert!(!p.daemon);
}

#[test]
fn terminate_explicit_pid_leaves_state_alone() {
    let mut p = supervisor();
    p.record_launch(700);
    let to_kill = p.terminate(Some(55));
    assert_eq!(to_kill, 55);
    assert_eq!(p.child_id, 700);
    assert!(p.daemon);
}

#[test]
fn kill_commands_per_platform() {
    let unix = kill_command(&Platform::MacOs { service: "Wi-Fi".to_string() }, 31).unwrap();
    assert_eq!(unix.program, "kill");
    assert_eq!(unix.args, vec!["-9".to_string(), "31".to_string()]);

    let win = kill_command(&Platform::Windows, 31).unwrap();
    assert_eq!(win.program, "taskkill");
    assert_eq!(win.args, vec!["/F".to_string(), "/PID".to_string(), "31".to_string()]);
}

#[test]
fn switch_plan_known_name() {
    let mut p = supervisor();
    p.record_launch(900);
    let c = catalog_with_tokyo();
    let plan = p.plan_switch(&c, "tokyo", "trojan.log").unwrap();
    assert_eq!(plan.kill_pid, 900);
    assert!(plan.config_text.contains("\"remote_addr\": \"1.2.3.4\""));
}

#[test]
fn switch_plan_unknown_name_is_error_and_no_change() {
    let mut p = supervisor();
    p.record_launch(900);
    let c = catalog_with_tokyo();
    let r = p.plan_switch(&c, "berlin", "trojan.log");
    match r {
        Err(Error::Config(m)) => assert_eq!(m, "server node not found: berlin"),
        other => panic!("expected a Config error, got {:?}", other),
    }
    assert_eq!(p.child_id, 900);
    assert!(p.daemon);
}

#[test]
fn launch_command_shape() {
    let p = supervisor();
    let c = p.launch_command();
    assert_eq!(c.program, "/home/u/.cache/hunter/trojan-go");
    assert_eq!(c.args, vec!["-config".to_string(), CFG.to_string()]);
}

#[test]
fn switch_daemon_flips_only_the_flag() {
    let mut p = supervisor();
    assert!(!p.daemon());
    p.switch_daemon();
    assert!(p.daemon());
    p.switch_daemon();
    assert!(!p.daemon());
    assert_eq!(p.child_id(), 0);
}

#[test]
fn reset_child_id_clears_only_the_pid() {
    let mut p = supervisor();
    p.record_launch(12);
    p.reset_child_id();
    assert_eq!(p.child_id(), 0);
    assert!(p.daemon());
}

#[test]
fn executable_name_per_platform() {
    assert_eq!(Platform::Windows.executable_file_name(), "trojan-go.exe");
    assert_eq!(Platform::MacOs { service: "Wi-Fi".to_string() }.executable_file_name(), "trojan-go");
    assert_eq!(Platform::Linux { desktop: Desktop::KDE }.executable_file_name(), "trojan-go");
}

#[test]
fn autostart_toggle_actions() {
    let p = supervisor();
    match p.switch_auto_start(true) {
        AutostartAction::RemoveFile(path) => {
            assert_eq!(path, "/home/u/.config/autostart/trojan-go.desktop")
        }
        other => panic!("expected a removal, got {:?}", other),
    }
    match p.switch_auto_start(false) {
        AutostartAction::WriteFile { path, content } => {
            assert_eq!(path, "/home/u/.config/autostart/trojan-go.desktop");
            assert_eq!(
                content,
                "[Desktop Entry]\nExec=/home/u/.cache/hunter/trojan-go -config \
                 /home/u/.config/hunter/config.json\nIcon=dialog-scripts\nName=trojan-go\n\
                 Path=\nType=Application\nX-KDE-AutostartScript=true\n"
            );
        }
        other => panic!("expected a write, got {:?}", other),
    }
}

#[test]
fn autostart_windows_script_content() {
    let p = Proxy::new(
        Platform::Windows,
        "C:\\cache\\trojan-go.exe".to_string(),
        "C:\\startup\\trojan-go.vbs".to_string(),
        "C:\\config\\config.json".to_string(),
    );
    match p.switch_auto_start(false) {
        AutostartAction::WriteFile { content, .. } => assert_eq!(
            content,
            "set ws=WScript.CreateObject(\"WScript.Shell\")\nws.Run \
             \"C:\\cache\\trojan-go.exe -config C:\\config\\config.json\",0"
        ),
        other => panic!("expected a write, got {:?}", other),
    }
}

#[test]
fn autostart_macos_plist_mentions_program_and_config() {
    let p = Proxy::new(
        Platform::MacOs { service: "Wi-Fi".to_string() },
        "/Users/u/Library/Caches/hunter/trojan-go".to_string(),
        "/Users/u/Library/LaunchAgents/com.thepoy.hunter.plist".to_string(),
        "/Users/u/Library/hunter/config.json".to_string(),
    );
    match p.switch_auto_start(false) {
        AutostartAction::WriteFile { content, .. } => {
            assert!(content.starts_with("<?xml version=\"1.0\" encoding=\"UTF-8\"?>"));
            assert!(content.contains("<string>/Users/u/Library/Caches/hunter/trojan-go</string>"));
            assert!(content.contains("<string>-config</string>"));
            assert!(content.contains("<string>/Users/u/Library/hunter/config.json</string>"));
            assert!(content.ends_with("</plist>\n"));
        }
        other => panic!("expected a write, got {:?}", other),
    }
}

#[test]
fn probing_the_live_system_never_reports_daemon_for_empty_catalog() {
    let mut p = supervisor();
    let c = Config::default();
    let r = p.inspect_system(&c, &TrojanFileState::Missing);
    match r {
        Ok(Some(TrojanProcessState::Daemon(_))) => {
            panic!("an empty catalog cannot resolve any node")
        }
        Ok(None) => {
            assert_eq!(p.child_id, 0);
            assert!(!p.daemon);
        }
        _ => {}
    }
}

#[test]
fn switch_then_inspect_reports_daemon_for_the_new_node() {
    // The full switch scenario: plan the switch for "tokyo", pretend the
    // caller wrote the planned text and relaunched, then classify the
    // resulting process against the written configuration.
    let mut p = supervisor();
    let c = catalog_with_tokyo();
    let plan = p.plan_switch(&c, "tokyo", "trojan.log").unwrap();
    assert_eq!(plan.kill_pid, 0);

    let v: serde_json::Value = serde_json::from_str(&plan.config_text).unwrap();
    assert_eq!(v.get("remote_addr").unwrap().as_str().unwrap(), "1.2.3.4");
    assert_eq!(v.get("remote_port").unwrap().as_u64().unwrap(), 443);
    assert_eq!(v.get("local_addr").unwrap().as_str().unwrap(), "127.0.0.1");
    assert_eq!(v.get("local_port").unwrap().as_u64().unwrap(), 1086);
    let pw: Vec<&str> =
        v.get("password").unwrap().as_array().unwrap().iter().map(|x| x.as_str().unwrap()).collect();
    assert_eq!(pw, vec!["p"]);

    let written = TrojanFileState::Parsed(TrojanConfig {
        remote_addr: v.get("remote_addr").unwrap().as_str().unwrap().to_string(),
        remote_port: v.get("remote_port").unwrap().as_u64().unwrap() as u16,
        password: pw.into_iter().map(String::from).collect(),
    });
    let procs = vec![managed_process(1234)];
    let r = p.get_trojan_process_state(&procs, &c, &written).unwrap();
    match r {
        Some(TrojanProcessState::Daemon(n)) => assert_eq!(n.name(), "tokyo"),
        other => panic!("expected a daemon classification, got {:?}", other),
    }
    assert_eq!(p.child_id, 1234);
}

#[test]
fn error_messages_carry_their_text() {
    assert_eq!(Error::Config("a".to_string()).message(), "a");
    assert_eq!(Error::Deserialize("b".to_string()).message(), "b");
    assert_eq!(Error::Command("c".to_string()).message(), "c");
    assert_eq!(Error::Io("d".to_string()).message(), "d");
}

#[test]
fn file_checks_answer_false_for_absent_paths() {
    let p = Proxy::new(
        Platform::Linux { desktop: Desktop::KDE },
        "/definitely/not/present/anywhere/trojan-go".to_string(),
        "/definitely/not/present/anywhere/trojan-go.desktop".to_string(),
        "/definitely/not/present/anywhere/config.json".to_string(),
    );
    assert!(!p.check_executable_file());
    assert!(!p.auto_start_state());
}
