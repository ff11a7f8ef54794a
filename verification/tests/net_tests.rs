use lagide::error::LagideError;
use lagide::sftp::RemoteFile;
use lagide::ssh::{format_fingerprint, CommandOutput, SshClient};
use lagide::sysinfo_mod::mebibytes;

#[test]
fn fingerprint_text() {
    assert_eq!(format_fingerprint(None), "unknown");
    assert_eq!(format_fingerprint(Some(&[])), "");
    assert_eq!(format_fingerprint(Some(&[0x0a])), "0a");
    assert_eq!(format_fingerprint(Some(&[0xde, 0xad, 0x00, 0xff])), "de:ad:00:ff");
    let bytes: Vec<u8> = (0..=255).collect();
    let want = bytes.iter().map(|b| format!("{:02x}", b)).collect::<Vec<_>>().join(":");
    assert_eq!(format_fingerprint(Some(&bytes)), want);
}

#[test]
fn client_state() {
    let mut c: SshClient<u8> = SshClient::new("host", 22, "me");
    assert!(!c.connected);
    assert_eq!(c.address(), "host:22");
    match c.session() {
        Err(LagideError::Ssh(m)) => assert_eq!(m, "Not connected"),
        _ => panic!("expected an error"),
    }
    c.attach(7);
    assert!(c.connected);
    assert_eq!(*c.session().unwrap(), 7);
    assert_eq!(c.disconnect(), Some(7));
    assert!(!c.connected);
    assert_eq!(c.disconnect(), None);
}

#[test]
fn login_outcomes() {
    let mut c: SshClient<u8> = SshClient::new("h", 2222, "u");
    match c.finish_password_auth(1, false) {
        Err(LagideError::Ssh(m)) => assert_eq!(m, "Authentication failed"),
        _ => panic!("expected an error"),
    }
    assert!(!c.connected && c.session.is_none());
    match c.finish_key_auth(1, false) {
        Err(LagideError::Ssh(m)) => assert_eq!(m, "Key authentication failed"),
        _ => panic!("expected an error"),
    }
    c.finish_key_auth(4, true).unwrap();
    assert!(c.connected);
    assert_eq!(c.session, Some(4));
    assert_eq!(c.address(), "h:2222");
}

#[test]
fn command_output_exit_code() {
    assert_eq!(CommandOutput::new("o".into(), "e".into(), Some(3)).exit_code, 3);
    assert_eq!(CommandOutput::new("o".into(), "e".into(), None).exit_code, -1);
}

#[test]
fn remote_file_from_stat() {
    let f = RemoteFile::from_stat("/home/me/notes.txt", Some(42), Some(0o100644), Some(0));
    assert!(!f.is_dir);
    assert_eq!(f.name, "notes.txt");
    assert_eq!(f.path, "/home/me/notes.txt");
    assert_eq!(f.size, 42);
    assert_eq!(f.permissions, "644");
    assert_eq!(f.modified.as_deref(), Some("1970-01-01 00:00"));
    let d = RemoteFile::from_stat("/", None, None, None);
    assert!(!d.is_dir);
    assert_eq!(d.name, "");
    assert_eq!(d.size, 0);
    assert_eq!(d.permissions, "0");
    assert!(d.modified.is_none());
    let t = RemoteFile::from_stat("a/b/..", None, Some(0o40755), Some(1_700_000_000));
    assert!(t.is_dir);
    assert_eq!(t.name, "");
    assert_eq!(t.permissions, "755");
    assert_eq!(t.modified.as_deref(), Some("2023-11-14 22:13"));
    let far = RemoteFile::from_stat("x", None, None, Some(u64::MAX / 2));
    assert_eq!(far.modified.as_deref(), Some(""));
}

#[test]
fn directories_are_told_by_type_bits() {
    assert!(RemoteFile::from_stat("d", None, Some(0o040000), None).is_dir);
    assert!(RemoteFile::from_stat("d", None, Some(0o041777), None).is_dir);
    // A symbolic link (0o120000) shares the directory bit but is not one.
    assert!(!RemoteFile::from_stat("l", None, Some(0o120777), None).is_dir);
    assert!(!RemoteFile::from_stat("s", None, Some(0o140755), None).is_dir);
    assert!(!RemoteFile::from_stat("f", None, Some(0o100755), None).is_dir);
}

#[test]
fn remote_file_from_parts() {
    let f = RemoteFile::from_parts(Some("a.txt".into()), "/x/a.txt", Some(7), Some(0o7777), false, Some(Some("2024-01-02 03:04".into())));
    assert_eq!(f.name, "a.txt");
    assert_eq!(f.permissions, "777");
    assert_eq!(f.modified.as_deref(), Some("2024-01-02 03:04"));
    let g = RemoteFile::from_parts(None, "/", None, Some(0o100640), true, Some(None));
    assert_eq!(g.name, "");
    assert_eq!(g.size, 0);
    assert_eq!(g.permissions, "640");
    assert_eq!(g.modified.as_deref(), Some(""));
    let h = RemoteFile::from_parts(None, "p", None, None, false, None);
    assert_eq!(h.permissions, "0");
    assert!(h.modified.is_none());
}

#[test]
fn mebibytes_round_down() {
    assert_eq!(mebibytes(0), 0);
    assert_eq!(mebibytes(1048575), 0);
    assert_eq!(mebibytes(1048576), 1);
    assert_eq!(mebibytes(u64::MAX), 17592186044415);
}

#[test]
fn error_messages() {
    assert_eq!(LagideError::Ssh("x".into()).message(), "SSH error: x");
    assert_eq!(LagideError::Sftp("x".into()).message(), "SFTP error: x");
    assert_eq!(LagideError::Tunnel("x".into()).message(), "Tunnel error: x");
    assert_eq!(LagideError::Config("x".into()).message(), "Configuration error: x");
    assert_eq!(LagideError::SessionNotFound("x".into()).message(), "Session not found: x");
    assert_eq!(LagideError::CommandFailed("x".into()).message(), "Command execution failed: x");
    let io = std::io::Error::new(std::io::ErrorKind::Other, "disk full");
    assert_eq!(LagideError::from(io).message(), "IO error: disk full");
}
