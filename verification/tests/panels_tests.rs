use lagide::panels::{
    centered_split, default_marker, distribution_entry, form_label, form_value, input_title,
    output_kind, session_badge, session_detail, session_summary, ssh_session_line, state_icon,
    tunnel_line, used_of_total, version_suffix, OutputKind, RECENT_SESSIONS,
};
use lagide::session::{AuthMethod, SessionType, SshSession, WslSession};
use lagide::tunnel::{TunnelConfig, TunnelType};
use lagide::wsl::{WslDistribution, WslState};

fn ssh() -> SshSession {
    SshSession {
        host: "example.org".to_string(),
        port: 2222,
        username: "ana".to_string(),
        auth_method: AuthMethod::Password,
    }
}

fn wsl() -> SessionType {
    SessionType::Wsl(WslSession { distribution: "Ubuntu".to_string(), default_command: None })
}

#[test]
fn summaries_name_each_kind() {
    assert_eq!(session_summary(&SessionType::Ssh(ssh())), "SSH ana@example.org");
    assert_eq!(session_summary(&wsl()), "WSL Ubuntu");
    assert_eq!(session_summary(&SessionType::Local), "Local");
}

#[test]
fn badges_and_details() {
    assert_eq!(session_badge(&SessionType::Ssh(ssh())), " [SSH] ");
    assert_eq!(session_badge(&wsl()), " [WSL] ");
    assert_eq!(session_badge(&SessionType::Local), " [LOC] ");
    assert_eq!(session_detail(&SessionType::Ssh(ssh())), "  ana@example.org:2222");
    assert_eq!(session_detail(&wsl()), "  Ubuntu");
    assert_eq!(session_detail(&SessionType::Local), "  local shell");
    assert_eq!(ssh_session_line(&ssh()), " - ana@example.org:2222");
}

#[test]
fn tunnel_lines_show_kind_and_ports() {
    let c = TunnelConfig {
        name: "db".to_string(),
        tunnel_type: TunnelType::Local,
        local_port: 5433,
        remote_host: "db.internal".to_string(),
        remote_port: 5432,
        ssh_host: "bastion".to_string(),
        ssh_port: 22,
        ssh_user: "ops".to_string(),
    };
    assert_eq!(tunnel_line(&c), " Local (-L) localhost:5433 -> db.internal:5432");
    let d = TunnelConfig { tunnel_type: TunnelType::Dynamic, ..c };
    assert_eq!(tunnel_line(&d), " Dynamic (-D) localhost:5433 -> db.internal:5432");
}

#[test]
fn distribution_texts() {
    let d = WslDistribution {
        name: "Debian".to_string(),
        state: WslState::Stopped,
        version: 2,
        is_default: true,
    };
    assert_eq!(distribution_entry(&d), "Debian (WSL2)");
    assert_eq!(version_suffix(1), "] WSL1");
    assert_eq!(default_marker(true), "* ");
    assert_eq!(default_marker(false), "  ");
    assert_eq!(state_icon(WslState::Running), " ● ");
    assert_eq!(state_icon(WslState::Stopped), " ○ ");
    assert_eq!(state_icon(WslState::Installing), " ◌ ");
    assert_eq!(state_icon(WslState::Unknown), " ◌ ");
}

#[test]
fn output_lines_are_classified() {
    assert_eq!(output_kind("$ ls"), OutputKind::Command);
    assert_eq!(output_kind("Error: not found"), OutputKind::Error);
    assert_eq!(output_kind("Error"), OutputKind::Plain);
    assert_eq!(output_kind("error: lower case"), OutputKind::Plain);
    assert_eq!(output_kind(""), OutputKind::Plain);
    assert_eq!(output_kind("total 0"), OutputKind::Plain);
}

#[test]
fn form_cells() {
    assert_eq!(form_label(0), "  Host: ");
    assert_eq!(form_label(1), "  Port: ");
    assert_eq!(form_label(2), "  Username: ");
    assert_eq!(form_label(3), "  Password: ");
    assert_eq!(form_value(false, "host", false), "host");
    assert_eq!(form_value(false, "host", true), "host█");
    assert_eq!(form_value(true, "secret", false), "******");
    assert_eq!(form_value(true, "", true), "█");
    // One star per byte: 'é' takes two.
    assert_eq!(form_value(true, "é1", false), "***");
}

#[test]
fn small_texts() {
    assert_eq!(input_title(true), " Input (Esc to exit) ");
    assert_eq!(input_title(false), " Press 'i' to type ");
    assert_eq!(used_of_total(512, 2048), "512 / 2048 MB");
    assert_eq!(centered_split(60), (20, 60, 20));
    assert_eq!(centered_split(70), (15, 70, 15));
    assert_eq!(centered_split(100), (0, 100, 0));
    assert_eq!(RECENT_SESSIONS, 10);
}
