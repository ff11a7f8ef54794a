use lagide::error::LagideError;
use lagide::wsl::{ProcessOutput, WslCommand, WslDistribution, WslManager, WslState};

fn names(v: &[WslDistribution]) -> Vec<(String, WslState, u8, bool)> {
    v.iter()
        .map(|d| (d.name.clone(), d.state, d.version, d.is_default))
        .collect()
}

#[test]
fn parses_wsl_list_verbose() {
    let out = "  NAME                   STATE           VERSION\r\n\
               * Ubuntu-22.04           Running         2\r\n\
                 Debian                 Stopped         1\r\n\
                 docker-desktop         Installing      2\r\n\
                 odd                    Weird           x\r\n\
                 short                  Running\r\n\
               \r\n";
    let m = WslManager::new();
    let d = m.parse_distributions(out).unwrap();
    assert_eq!(
        names(&d),
        vec![
            ("Ubuntu-22.04".to_string(), WslState::Running, 2, true),
            ("Debian".to_string(), WslState::Stopped, 1, false),
            ("docker-desktop".to_string(), WslState::Installing, 2, false),
            ("odd".to_string(), WslState::Unknown, 2, false),
        ]
    );
}

#[test]
fn header_only_or_empty_lists_nothing() {
    let m = WslManager::new();
    assert!(m.parse_distributions("").unwrap().is_empty());
    assert!(m.parse_distributions("* Ubuntu Running 2").unwrap().is_empty());
    assert!(m.parse_distributions("NAME STATE VERSION\n").unwrap().is_empty());
}

#[test]
fn star_marks_default_even_when_doubled() {
    let m = WslManager::new();
    let d = m.parse_distributions("h\n**Alpine Stopped 300\n").unwrap();
    assert_eq!(names(&d), vec![("Alpine".to_string(), WslState::Stopped, 2, true)]);
}

#[test]
fn demo_list_when_wsl_fails() {
    let m = WslManager::new();
    let run = Ok(ProcessOutput { success: false, stdout: vec![], stderr: b"nope".to_vec() });
    let d = m.list_distributions(run).unwrap();
    assert_eq!(
        names(&d),
        vec![
            ("Ubuntu-22.04".to_string(), WslState::Running, 2, true),
            ("Debian".to_string(), WslState::Stopped, 2, false),
            ("kali-linux".to_string(), WslState::Stopped, 2, false),
        ]
    );
    assert_eq!(names(&m.demo_distributions()), names(&d));
}

#[test]
fn list_parses_successful_output() {
    let m = WslManager::new();
    let run = Ok(ProcessOutput {
        success: true,
        stdout: b"NAME STATE VERSION\n* Arch Running 2\n".to_vec(),
        stderr: vec![],
    });
    let d = m.list_distributions(run).unwrap();
    assert_eq!(names(&d), vec![("Arch".to_string(), WslState::Running, 2, true)]);
}

#[test]
fn list_reports_launch_failure() {
    let m = WslManager::new();
    match m.list_distributions(Err("not found".to_string())) {
        Err(LagideError::Wsl(t)) => assert_eq!(t, "Failed to run wsl command: not found"),
        other => panic!("unexpected {:?}", other),
    }
}

#[test]
fn exec_command_outcomes() {
    let m = WslManager::new();
    let ok = Ok(ProcessOutput { success: true, stdout: b"hi\n".to_vec(), stderr: vec![] });
    assert_eq!(m.exec_command(ok).unwrap(), "hi\n");
    let bad = Ok(ProcessOutput { success: false, stdout: vec![], stderr: b"bad\xff".to_vec() });
    match m.exec_command(bad) {
        Err(LagideError::Wsl(t)) => assert_eq!(t, "Command failed: bad\u{fffd}"),
        other => panic!("unexpected {:?}", other),
    }
    match m.exec_command(Err("denied".to_string())) {
        Err(e) => assert_eq!(e.message(), "WSL error: Failed to execute in WSL: denied"),
        other => panic!("unexpected {:?}", other),
    }
}

#[test]
fn status_commands() {
    let m = WslManager::new();
    let ok = || Ok(ProcessOutput { success: true, stdout: vec![], stderr: vec![] });
    let fail = || Ok(ProcessOutput { success: false, stdout: vec![], stderr: vec![] });
    assert!(m.start_distribution(ok()).is_ok());
    let msg = |r: lagide::error::Result<()>| match r {
        Err(LagideError::Wsl(t)) => t,
        other => panic!("unexpected {:?}", other),
    };
    assert_eq!(msg(m.start_distribution(fail())), "Failed to start distribution");
    assert_eq!(msg(m.stop_distribution(fail())), "Failed to stop distribution");
    assert_eq!(msg(m.shutdown_all(fail())), "Failed to shutdown all WSL instances");
    assert_eq!(msg(m.set_default(fail())), "Failed to set default distribution");
    assert_eq!(msg(m.export_distribution(fail())), "Failed to export distribution");
    assert_eq!(msg(m.import_distribution(fail())), "Failed to import distribution");
    assert_eq!(msg(m.stop_distribution(Err("x".into()))), "Failed to stop distribution: x");
    assert_eq!(msg(m.shutdown_all(Err("x".into()))), "Failed to shutdown WSL: x");
    assert_eq!(msg(m.set_default(Err("x".into()))), "Failed to set default: x");
    assert_eq!(msg(m.export_distribution(Err("x".into()))), "Failed to export: x");
    assert_eq!(msg(m.import_distribution(Err("x".into()))), "Failed to import: x");
    assert_eq!(msg(m.start_distribution(Err("x".into()))), "Failed to start distribution: x");
}

#[test]
fn command_arguments() {
    assert_eq!(WslCommand::List.args(), vec!["--list", "--verbose"]);
    let exec = WslCommand::Exec { distro: "Debian".into(), command: "ls -la".into() };
    assert_eq!(exec.args(), vec!["-d", "Debian", "--", "bash", "-c", "ls -la"]);
    assert_eq!(
        WslCommand::Start { distro: "D".into() }.args(),
        vec!["-d", "D", "--", "echo", "started"]
    );
    assert_eq!(WslCommand::Stop { distro: "D".into() }.args(), vec!["--terminate", "D"]);
    assert_eq!(WslCommand::Shutdown.args(), vec!["--shutdown"]);
    assert_eq!(WslCommand::SetDefault { distro: "D".into() }.args(), vec!["--set-default", "D"]);
    assert_eq!(
        WslCommand::Export { distro: "D".into(), path: "d.tar".into() }.args(),
        vec!["--export", "D", "d.tar"]
    );
    assert_eq!(
        WslCommand::Import {
            name: "N".into(),
            install_path: "C:\\wsl".into(),
            tar_path: "n.tar".into()
        }
        .args(),
        vec!["--import", "N", "C:\\wsl", "n.tar"]
    );
}

#[test]
fn state_names() {
    assert_eq!(WslState::Running.to_string(), "Running");
    assert_eq!(WslState::Stopped.to_string(), "Stopped");
    assert_eq!(WslState::Installing.to_string(), "Installing");
    assert_eq!(WslState::Unknown.to_string(), "Unknown");
}
