use lagide::error::LagideError;
use lagide::tunnel::{kill_outcome, TunnelConfig, TunnelManager, TunnelType};

fn config(name: &str, t: TunnelType) -> TunnelConfig {
    TunnelConfig {
        name: name.to_string(),
        tunnel_type: t,
        local_port: 8080,
        remote_host: "db.internal".to_string(),
        remote_port: 5432,
        ssh_host: "bastion".to_string(),
        ssh_port: 2222,
        ssh_user: "ops".to_string(),
    }
}

#[test]
fn ssh_arguments_per_kind() {
    assert_eq!(
        config("a", TunnelType::Local).ssh_args(),
        vec!["-N", "-f", "-L 8080:db.internal:5432", "-p", "2222", "ops@bastion"]
    );
    assert_eq!(config("a", TunnelType::Remote).forward_option(), "-R 5432:db.internal:8080");
    assert_eq!(config("a", TunnelType::Dynamic).forward_option(), "-D 8080");
}

#[test]
fn kind_names() {
    assert_eq!(TunnelType::Local.to_string(), "Local (-L)");
    assert_eq!(TunnelType::Remote.to_string(), "Remote (-R)");
    assert_eq!(TunnelType::Dynamic.to_string(), "Dynamic (-D)");
}

#[test]
fn create_list_stop() {
    let mut m: TunnelManager<u32> = TunnelManager::new();
    m.create_tunnel(config("one", TunnelType::Local), Ok(11)).unwrap();
    m.create_tunnel(config("two", TunnelType::Dynamic), Ok(22)).unwrap();
    match m.create_tunnel(config("three", TunnelType::Local), Err("no ssh".into())) {
        Err(LagideError::Tunnel(t)) => assert_eq!(t, "Failed to create tunnel: no ssh"),
        other => panic!("unexpected {:?}", other.is_ok()),
    }
    let names: Vec<&str> = m.list_tunnels().iter().map(|c| c.name.as_str()).collect();
    assert_eq!(names, vec!["one", "two"]);
    assert_eq!(m.tunnel_mut("two").unwrap().process, 22);
    let t = m.stop_tunnel("one").unwrap();
    assert_eq!(t.process, 11);
    match m.stop_tunnel("one") {
        Err(LagideError::Tunnel(t)) => assert_eq!(t, "Tunnel 'one' not found"),
        _ => panic!("expected an error"),
    }
    let all = m.stop_all();
    assert_eq!(all.len(), 1);
    assert!(m.tunnels.is_empty());
    assert!(m.tunnel_mut("two").is_none());
}

#[test]
fn kill_failures_are_reported() {
    assert!(kill_outcome(Ok(())).is_ok());
    match kill_outcome(Err("gone".into())) {
        Err(LagideError::Tunnel(t)) => assert_eq!(t, "Failed to stop tunnel: gone"),
        _ => panic!("expected an error"),
    }
}
