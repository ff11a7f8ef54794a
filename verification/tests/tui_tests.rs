use lagide::session::{Session, SessionManager, SessionType, Timestamp};
use lagide::tui::{format_bytes, format_uptime, App, Effect, Key, Tab};

fn float_bytes(bytes: u64) -> String {
    if bytes >= 1_073_741_824 {
        format!("{:.1} GB", bytes as f64 / 1_073_741_824.0)
    } else if bytes >= 1_048_576 {
        format!("{:.1} MB", bytes as f64 / 1_048_576.0)
    } else if bytes >= 1024 {
        format!("{:.1} KB", bytes as f64 / 1024.0)
    } else {
        format!("{} B", bytes)
    }
}

#[test]
fn format_bytes_matches_float_formatting() {
    let mut samples: Vec<u64> = vec![
        0, 1, 1023, 1024, 1075, 1126, 1177, 1280, 1331, 1536, 1048575, 1048576, 1310720,
        1073741823, 1073741824, 1342177280, 1288490188, u64::MAX, u64::MAX - 1,
        (1 << 53) + 1, (1 << 53) - 1, 1 << 60, (1 << 60) + (1 << 7), (1 << 60) + (1 << 8),
        9007199254740993, 18446744073709550591, 18446744073709549568,
    ];
    let mut x: u64 = 0x9E37_79B9_7F4A_7C15;
    for _ in 0..20000 {
        x ^= x << 13;
        x ^= x >> 7;
        x ^= x << 17;
        samples.push(x);
        samples.push(x >> (x % 64));
        samples.push((x % 4096) * 1024 / 10 * 10 + 512);
    }
    for k in 1..4096u64 {
        samples.push(k * 1024 / 20);
        samples.push(k * 1024 * 1024 / 20);
        samples.push(k * 1024 * 1024 * 1024 / 20);
    }
    for b in samples {
        assert_eq!(format_bytes(b), float_bytes(b), "bytes {}", b);
    }
}

#[test]
fn format_uptime_examples() {
    assert_eq!(format_uptime(0), "0m");
    assert_eq!(format_uptime(59), "0m");
    assert_eq!(format_uptime(60), "1m");
    assert_eq!(format_uptime(3600), "1h 0m");
    assert_eq!(format_uptime(3661), "1h 1m");
    assert_eq!(format_uptime(86400), "1d 0h 0m");
    assert_eq!(format_uptime(90061), "1d 1h 1m");
    assert_eq!(format_uptime(u64::MAX), "213503982334601d 7h 0m");
}

#[test]
fn tabs_in_order() {
    let all = Tab::all();
    assert_eq!(all.len(), 7);
    for (i, t) in all.iter().enumerate() {
        assert_eq!(t.index(), i);
    }
    let titles: Vec<&str> = all.iter().map(|t| t.title()).collect();
    assert_eq!(titles, vec!["Dashboard", "WSL2", "SSH", "SFTP", "Tunnels", "Sessions", "System"]);
}

fn session(id: &str, t: SessionType) -> Session {
    Session {
        id: id.to_string(),
        name: format!("name-{}", id),
        session_type: t,
        created_at: Timestamp { secs: 0, nanos: 0 },
        last_used: None,
        tags: vec![],
    }
}

fn app() -> App {
    let mut m = SessionManager::new("s.json".to_string());
    m.add_session(session("a", SessionType::Local));
    m.add_session(session("b", SessionType::Local));
    m.add_session(session("c", SessionType::Local));
    App::new(m)
}

#[test]
fn new_app_starts_on_dashboard() {
    let a = app();
    assert!(a.running);
    assert_eq!(a.active_tab, Tab::Dashboard);
    assert_eq!(a.status_message, "Welcome to Lagide - Press ? for help");
    assert_eq!(a.ssh_form.port, "22");
    assert!(!a.input_mode && !a.show_help);
}

#[test]
fn tab_navigation_wraps() {
    let mut a = app();
    a.prev_tab();
    assert_eq!(a.active_tab, Tab::SysInfo);
    a.next_tab();
    assert_eq!(a.active_tab, Tab::Dashboard);
    for _ in 0..7 {
        a.next_tab();
    }
    assert_eq!(a.active_tab, Tab::Dashboard);
    assert_eq!(a.handle_key(Key::Right, false), Effect::Nothing);
    assert_eq!(a.active_tab, Tab::Wsl);
    a.handle_key(Key::Char('h'), false);
    assert_eq!(a.active_tab, Tab::Dashboard);
    a.handle_key(Key::Char('?'), false);
    a.handle_key(Key::Tab, false);
    assert_eq!(a.active_tab, Tab::Dashboard);
    a.handle_key(Key::Char('?'), false);
    a.handle_key(Key::Char('7'), false);
    assert_eq!(a.active_tab, Tab::SysInfo);
}

#[test]
fn ctrl_c_and_q_quit() {
    let mut a = app();
    a.input_mode = true;
    a.handle_key(Key::Char('c'), true);
    assert!(!a.running);
    let mut b = app();
    b.handle_key(Key::Char('q'), false);
    assert!(!b.running);
}

#[test]
fn wsl_keys_ask_for_outside_work() {
    let mut a = app();
    a.handle_key(Key::Char('2'), false);
    assert_eq!(a.handle_key(Key::Down, false), Effect::SelectNextDistribution);
    assert_eq!(a.handle_key(Key::Char('k'), false), Effect::SelectPrevDistribution);
    assert_eq!(a.handle_key(Key::Char('s'), false), Effect::StartSelectedDistribution);
    assert_eq!(a.handle_key(Key::Char('x'), false), Effect::StopSelectedDistribution);
    a.select_next_distribution(3);
    a.select_next_distribution(3);
    a.select_next_distribution(3);
    assert_eq!(a.wsl_selected, 0);
    a.select_prev_distribution(3);
    assert_eq!(a.wsl_selected, 2);
    a.select_prev_distribution(0);
    assert_eq!(a.wsl_selected, 2);
}

#[test]
fn command_line_editing_and_run() {
    let mut a = app();
    a.handle_key(Key::Char('2'), false);
    a.handle_key(Key::Char('i'), false);
    assert!(a.input_mode);
    assert_eq!(a.handle_key(Key::Enter, false), Effect::Nothing);
    a.handle_key(Key::Char('i'), false);
    for c in "lsx".chars() {
        a.handle_key(Key::Char(c), false);
    }
    a.handle_key(Key::Backspace, false);
    assert_eq!(a.command_input, "ls");
    assert_eq!(a.handle_key(Key::Enter, false), Effect::ExecWslCommand);
    assert!(!a.input_mode);
    a.exec_wsl_command(Some(Ok("one\r\ntwo\n".to_string())));
    assert_eq!(a.command_output, vec!["$ ls", "one", "two"]);
    assert_eq!(a.status_message, "Command executed successfully");
    assert_eq!(a.command_input, "");
    a.command_input = "pwd".to_string();
    a.exec_wsl_command(Some(Err(lagide::error::LagideError::Wsl("Command failed: boom".into()))));
    assert_eq!(a.command_output.last().unwrap(), "Error: WSL error: Command failed: boom");
    assert_eq!(a.status_message, "Error: WSL error: Command failed: boom");
    a.command_input = "pwd".to_string();
    a.exec_wsl_command(None);
    assert_eq!(a.command_input, "");
    assert_eq!(a.command_output.len(), 4);
}

#[test]
fn ssh_form_editing() {
    let mut a = app();
    a.handle_key(Key::Char('3'), false);
    a.handle_key(Key::Char('i'), false);
    for c in "host".chars() {
        a.handle_key(Key::Char(c), false);
    }
    a.handle_key(Key::Tab, false);
    a.handle_key(Key::Backspace, false);
    a.handle_key(Key::Backspace, false);
    a.handle_key(Key::Char('2'), false);
    a.handle_key(Key::Char('2'), false);
    a.handle_key(Key::Char('0'), false);
    a.handle_key(Key::Tab, false);
    for c in "me".chars() {
        a.handle_key(Key::Char(c), false);
    }
    a.handle_key(Key::BackTab, false);
    assert_eq!(a.ssh_form.focused_field, 1);
    a.handle_key(Key::BackTab, false);
    a.handle_key(Key::BackTab, false);
    assert_eq!(a.ssh_form.focused_field, 3);
    a.handle_key(Key::Enter, false);
    assert_eq!(a.status_message, "Connecting to me@host:220...");
    assert!(!a.input_mode);
}

#[test]
fn session_selection_and_delete() {
    let mut a = app();
    a.handle_key(Key::Char('6'), false);
    a.handle_key(Key::Char('j'), false);
    a.handle_key(Key::Char('j'), false);
    assert_eq!(a.session_selected, 2);
    a.handle_key(Key::Char('j'), false);
    assert_eq!(a.session_selected, 0);
    a.handle_key(Key::Up, false);
    assert_eq!(a.session_selected, 2);
    a.handle_key(Key::Up, false);
    assert_eq!(a.handle_key(Key::Char('d'), false), Effect::SaveSessions);
    assert_eq!(a.status_message, "Session deleted");
    assert_eq!(a.session_selected, 0);
    let ids: Vec<&str> = a.session_manager.sessions.iter().map(|s| s.id.as_str()).collect();
    assert_eq!(ids, vec!["a", "c"]);
    a.session_selected = 5;
    assert_eq!(a.handle_key(Key::Char('d'), false), Effect::Nothing);
}

#[test]
fn distribution_reports() {
    let mut a = app();
    a.distribution_started("Debian", Ok(()));
    assert_eq!(a.status_message, "Started Debian");
    a.distribution_stopped("Debian", Ok(()));
    assert_eq!(a.status_message, "Stopped Debian");
    a.distribution_stopped("Debian", Err(lagide::error::LagideError::Wsl("Failed to stop distribution".into())));
    assert_eq!(a.status_message, "Error: WSL error: Failed to stop distribution");
}
