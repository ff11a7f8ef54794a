use lagide::session::{Session, SessionManager, SessionType, SshSession, Timestamp, WslSession, AuthMethod};
use lagide::terminal::{encode_char, TerminalCell, TerminalKey, TerminalScreen};
use lagide::tui::{App, Effect, Key, Tab};
use lagide::tunnel::{TunnelConfig, TunnelManager, TunnelType};
use lagide::wsl::{WslManager, WslState};

#[test]
fn state_names_read_back() {
    let m = WslManager::new();
    for s in [WslState::Running, WslState::Stopped, WslState::Installing, WslState::Unknown] {
        let out = format!("NAME STATE VERSION\nd {} 2\n", s.to_string());
        let d = m.parse_distributions(&out).unwrap();
        assert_eq!(d[0].state, s);
    }
}

#[test]
fn listings_concatenate() {
    let m = WslManager::new();
    let a = "a Running 1\n";
    let b = "* b Stopped 2\n";
    let both = m.parse_distributions(&format!("H\n{}{}", a, b)).unwrap();
    let first = m.parse_distributions(&format!("H\n{}", a)).unwrap();
    let second = m.parse_distributions(&format!("H\n{}", b)).unwrap();
    assert_eq!(both.len(), first.len() + second.len());
    assert_eq!(both[0].name, first[0].name);
    assert_eq!(both[1].name, second[0].name);
}

fn s(id: &str, t: SessionType) -> Session {
    Session {
        id: id.into(),
        name: id.into(),
        session_type: t,
        created_at: Timestamp { secs: 0, nanos: 0 },
        last_used: None,
        tags: vec![],
    }
}

#[test]
fn type_lists_partition_the_sessions() {
    let mut m = SessionManager::new("f".into());
    m.add_session(s("1", SessionType::Local));
    m.add_session(s("2", SessionType::Wsl(WslSession { distribution: "d".into(), default_command: Some("ls".into()) })));
    m.add_session(s("3", SessionType::Ssh(SshSession { host: "h".into(), port: 1, username: "u".into(), auth_method: AuthMethod::Password })));
    m.add_session(s("4", SessionType::Local));
    let total = m.list_by_type("ssh").len() + m.list_by_type("wsl").len() + m.list_by_type("local").len();
    assert_eq!(total, m.sessions.len());
    assert_eq!(m.list_by_type("all").len(), m.sessions.len());
    let got = m.get_session("1").unwrap().name.clone();
    let removed = m.remove_session("1").unwrap();
    assert_eq!(got, removed.name);
}

#[test]
fn stopping_a_new_tunnel_undoes_creating_it() {
    let cfg = |n: &str| TunnelConfig {
        name: n.into(),
        tunnel_type: TunnelType::Dynamic,
        local_port: 1080,
        remote_host: String::new(),
        remote_port: 0,
        ssh_host: "h".into(),
        ssh_port: 22,
        ssh_user: "u".into(),
    };
    let mut m: TunnelManager<char> = TunnelManager::new();
    m.create_tunnel(cfg("a"), Ok('a')).unwrap();
    m.create_tunnel(cfg("b"), Ok('b')).unwrap();
    let t = m.stop_tunnel("b").unwrap();
    assert_eq!(t.process, 'b');
    assert_eq!(t.config.name, "b");
    let names: Vec<&str> = m.list_tunnels().iter().map(|c| c.name.as_str()).collect();
    assert_eq!(names, vec!["a"]);
    assert_eq!(cfg("x").ssh_args()[2], "-D 1080");
}

#[test]
fn keys_send_distinct_sequences() {
    let mut keys = vec![
        TerminalKey::Enter, TerminalKey::Tab, TerminalKey::Backspace, TerminalKey::Escape,
        TerminalKey::Up, TerminalKey::Down, TerminalKey::Right, TerminalKey::Left,
        TerminalKey::Home, TerminalKey::End, TerminalKey::PageUp, TerminalKey::PageDown,
        TerminalKey::Delete, TerminalKey::Insert, TerminalKey::CtrlC, TerminalKey::CtrlD,
        TerminalKey::CtrlZ, TerminalKey::CtrlL,
    ];
    for n in 1..=12 {
        keys.push(TerminalKey::F(n));
    }
    let seqs: Vec<Vec<u8>> = keys.iter().map(|k| k.sequence().unwrap()).collect();
    for i in 0..seqs.len() {
        assert!(!seqs[i].is_empty());
        for j in 0..i {
            assert_ne!(seqs[i], seqs[j]);
        }
    }
}

#[test]
fn typed_characters_decode_back() {
    for c in ['x', 'ß', '€', '😀'] {
        let bytes = encode_char(c);
        assert_eq!(std::str::from_utf8(&bytes).unwrap().chars().collect::<Vec<_>>(), vec![c]);
    }
}

#[test]
fn fresh_screen_is_blank() {
    let s = TerminalScreen::new(2, 3, 0);
    for line in s.screen_lines(4, 5) {
        for c in line.cells {
            assert_eq!(c, TerminalCell::default());
        }
    }
}

#[test]
fn esc_leaves_input_and_keys_keep_other_state() {
    let mut a = App::new(SessionManager::new("f".into()));
    a.session_manager.add_session(s("1", SessionType::Local));
    for tab in ['1', '2', '3', '4', '5', '6', '7'] {
        a.input_mode = false;
        a.handle_key(Key::Char(tab), false);
        a.handle_key(Key::Char('i'), false);
        assert!(a.input_mode);
        a.handle_key(Key::Esc, false);
        assert!(!a.input_mode);
    }
    assert_eq!(a.active_tab, Tab::SysInfo);
    for k in [Key::Char('j'), Key::Down, Key::Char('x'), Key::Other, Key::Enter] {
        let e = a.handle_key(k, false);
        assert_eq!(e, Effect::Nothing);
        assert_eq!(a.session_manager.sessions.len(), 1);
        assert_eq!(a.command_input, "");
    }
}

#[test]
fn listed_lines_read_back() {
    let m = WslManager::new();
    for (name, state, version, is_default) in [
        ("Ubuntu-22.04", WslState::Running, 2u8, true),
        ("kali-linux", WslState::Stopped, 1, false),
        ("x", WslState::Installing, 255, false),
        ("αβγ", WslState::Unknown, 0, true),
    ] {
        let line = format!(
            "{}{} {} {}",
            if is_default { "* " } else { "  " },
            name,
            state.to_string(),
            version
        );
        let d = m.parse_distributions(&format!("NAME STATE VERSION\n{}\n", line)).unwrap();
        assert_eq!(d.len(), 1);
        assert_eq!(
            (d[0].name.as_str(), d[0].state, d[0].version, d[0].is_default),
            (name, state, version, is_default)
        );
    }
}

#[test]
fn one_distribution_listing_reads_back() {
    let m = WslManager::new();
    for s in [WslState::Running, WslState::Stopped, WslState::Installing, WslState::Unknown] {
        for d in [true, false] {
            for v in [0u8, 1, 2, 255] {
                for end in ["", "\n"] {
                    let out = format!(
                        "NAME STATE VERSION\n{}{} {} {}{}",
                        if d { "* " } else { "  " },
                        "Ubuntu-22.04",
                        s.to_string(),
                        v,
                        end
                    );
                    let got = m.parse_distributions(&out).unwrap();
                    assert_eq!(got.len(), 1);
                    assert_eq!(got[0].name, "Ubuntu-22.04");
                    assert_eq!(got[0].state, s);
                    assert_eq!(got[0].version, v);
                    assert_eq!(got[0].is_default, d);
                }
            }
        }
    }
}
