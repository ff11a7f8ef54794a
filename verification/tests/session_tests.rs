use lagide::session::{AuthMethod, Session, SessionManager, SessionType, SshSession, Timestamp, WslSession};

fn session(id: &str, t: SessionType) -> Session {
    Session {
        id: id.to_string(),
        name: format!("name-{}", id),
        session_type: t,
        created_at: Timestamp { secs: 1_700_000_000, nanos: 5 },
        last_used: Some(Timestamp { secs: 1_700_000_100, nanos: 0 }),
        tags: vec!["t".to_string()],
    }
}

fn ssh() -> SessionType {
    SessionType::Ssh(SshSession {
        host: "h".into(),
        port: 22,
        username: "u".into(),
        auth_method: AuthMethod::Key("/k".into()),
    })
}

fn wsl() -> SessionType {
    SessionType::Wsl(WslSession { distribution: "Debian".into(), default_command: None })
}

fn manager() -> SessionManager {
    let mut m = SessionManager::new("/tmp/sessions.json".to_string());
    m.add_session(session("1", ssh()));
    m.add_session(session("2", wsl()));
    m.add_session(session("3", SessionType::Local));
    m.add_session(session("2", SessionType::Local));
    m
}

fn ids(v: &[&Session]) -> Vec<String> {
    v.iter().map(|s| s.id.clone()).collect()
}

#[test]
fn new_manager_is_empty() {
    let m = SessionManager::new("f".to_string());
    assert!(m.sessions.is_empty());
    assert_eq!(m.file_path, "f");
}

#[test]
fn list_by_type_filters() {
    let m = manager();
    assert_eq!(ids(&m.list_by_type("ssh")), vec!["1"]);
    assert_eq!(ids(&m.list_by_type("wsl")), vec!["2"]);
    assert_eq!(ids(&m.list_by_type("local")), vec!["3", "2"]);
    assert_eq!(ids(&m.list_by_type("all")), vec!["1", "2", "3", "2"]);
    assert!(m.list_by_type("SSH").is_empty());
    assert!(m.list_by_type("").is_empty());
}

#[test]
fn get_finds_first_with_id() {
    let m = manager();
    let s = m.get_session("2").unwrap();
    assert!(matches!(s.session_type, SessionType::Wsl(_)));
    assert!(m.get_session("9").is_none());
}

#[test]
fn get_mut_changes_in_place() {
    let mut m = manager();
    m.get_session_mut("3").unwrap().name = "renamed".to_string();
    assert_eq!(m.sessions[2].name, "renamed");
    assert!(m.get_session_mut("nope").is_none());
}

#[test]
fn remove_takes_first_with_id() {
    let mut m = manager();
    let r = m.remove_session("2").unwrap();
    assert!(matches!(r.session_type, SessionType::Wsl(_)));
    let left: Vec<&str> = m.sessions.iter().map(|s| s.id.as_str()).collect();
    assert_eq!(left, vec!["1", "3", "2"]);
    assert!(m.remove_session("x").is_none());
    assert_eq!(m.sessions.len(), 3);
}

#[test]
fn add_then_remove_restores() {
    let mut m = manager();
    let before: Vec<String> = m.sessions.iter().map(|s| s.id.clone()).collect();
    m.add_session(session("new", SessionType::Local));
    let r = m.remove_session("new").unwrap();
    assert_eq!(r.id, "new");
    let after: Vec<String> = m.sessions.iter().map(|s| s.id.clone()).collect();
    assert_eq!(before, after);
}
