//! What the panels of the interface show: the text of each list entry,
//! form field and output line, apart from how it is coloured and laid out.

use vstd::prelude::*;
use vstd::utf8::encode_utf8;
use crate::session::{SessionType, SshSession};
use crate::text::{decimal, decimal_string, owned};
use crate::tunnel::{tunnel_type_label, TunnelConfig};
use crate::wsl::{WslDistribution, WslState};

verus! {

/// How many saved sessions the dashboard lists, the first ones.
pub const RECENT_SESSIONS: usize = 10;

/// `user@host`.
pub open spec fn user_at_host(ssh: SshSession) -> Seq<char> {
    ssh.username@ + "@"@ + ssh.host@
}

/// `user@host:port`.
pub open spec fn ssh_target(ssh: SshSession) -> Seq<char> {
    user_at_host(ssh) + ":"@ + decimal(ssh.port as nat)
}

/// What the dashboard says a session connects to.
pub open spec fn summary_text(t: SessionType) -> Seq<char> {
    match t {
        SessionType::Ssh(ssh) => "SSH "@ + user_at_host(ssh),
        SessionType::Wsl(wsl) => "WSL "@ + wsl.distribution@,
        SessionType::Local => "Local"@,
    }
}

/// The badge of a session's type in the session list.
pub open spec fn badge_text(t: SessionType) -> Seq<char> {
    match t {
        SessionType::Ssh(_) => " [SSH] "@,
        SessionType::Wsl(_) => " [WSL] "@,
        SessionType::Local => " [LOC] "@,
    }
}

/// The detail that the session list shows after a session's name.
pub open spec fn detail_text(t: SessionType) -> Seq<char> {
    "  "@ + match t {
        SessionType::Ssh(ssh) => ssh_target(ssh),
        SessionType::Wsl(wsl) => wsl.distribution@,
        SessionType::Local => "local shell"@,
    }
}

/// `user@host` of an SSH session.
fn push_user_at_host(out: &mut String, ssh: &SshSession)
    ensures
        final(out)@ == old(out)@ + user_at_host(*ssh),
{
    out.append(ssh.username.as_str());
    out.append("@");
    out.append(ssh.host.as_str());
}

/// `user@host:port` of an SSH session.
fn push_ssh_target(out: &mut String, ssh: &SshSession)
    ensures
        final(out)@ == old(out)@ + ssh_target(*ssh),
{
    push_user_at_host(out, ssh);
    out.append(":");
    out.append(decimal_string(ssh.port as u64).as_str());
}

/// What the dashboard says a session connects to: `SSH user@host`,
/// `WSL distribution` or `Local`.
pub fn session_summary(t: &SessionType) -> (r: String)
    ensures
        r@ == summary_text(*t),
{
    match t {
        SessionType::Ssh(ssh) => {
            let mut r = owned("SSH ");
            push_user_at_host(&mut r, ssh);
            r
        },
        SessionType::Wsl(wsl) => {
            let mut r = owned("WSL ");
            r.append(wsl.distribution.as_str());
            r
        },
        SessionType::Local => owned("Local"),
    }
}

/// The badge of a session's type in the session list: ` [SSH] `,
/// ` [WSL] ` or ` [LOC] `.
pub fn session_badge(t: &SessionType) -> (r: String)
    ensures
        r@ == badge_text(*t),
{
    match t {
        SessionType::Ssh(_) => owned(" [SSH] "),
        SessionType::Wsl(_) => owned(" [WSL] "),
        SessionType::Local => owned(" [LOC] "),
    }
}

/// The detail after a session's name in the session list:
/// `user@host:port`, the distribution, or `local shell`.
pub fn session_detail(t: &SessionType) -> (r: String)
    ensures
        r@ == detail_text(*t),
{
    let mut r = owned("  ");
    match t {
        SessionType::Ssh(ssh) => push_ssh_target(&mut r, ssh),
        SessionType::Wsl(wsl) => r.append(wsl.distribution.as_str()),
        SessionType::Local => r.append("local shell"),
    }
    r
}

/// The text after a saved SSH session's name: ` - user@host:port`.
pub fn ssh_session_line(ssh: &SshSession) -> (r: String)
    ensures
        r@ == " - "@ + ssh_target(*ssh),
{
    let mut r = owned(" - ");
    push_ssh_target(&mut r, ssh);
    r
}

/// The text after a tunnel's name in the tunnel list.
pub open spec fn tunnel_text(c: TunnelConfig) -> Seq<char> {
    " "@ + tunnel_type_label(c.tunnel_type) + " localhost:"@ + decimal(c.local_port as nat)
        + " -> "@ + c.remote_host@ + ":"@ + decimal(c.remote_port as nat)
}

/// The text after a tunnel's name in the tunnel list:
/// ` <kind> localhost:<local port> -> <host>:<remote port>`.
pub fn tunnel_line(c: &TunnelConfig) -> (r: String)
    ensures
        r@ == tunnel_text(*c),
{
    let mut r = owned(" ");
    r.append(c.tunnel_type.to_string().as_str());
    r.append(" localhost:");
    r.append(decimal_string(c.local_port as u64).as_str());
    r.append(" -> ");
    r.append(c.remote_host.as_str());
    r.append(":");
    r.append(decimal_string(c.remote_port as u64).as_str());
    r
}

/// The mark before a distribution on the dashboard: `* ` for the default
/// one, two spaces for the others.
pub fn default_marker(is_default: bool) -> (r: &'static str)
    ensures
        r@ == (if is_default { "* "@ } else { "  "@ }),
{
    if is_default {
        "* "
    } else {
        "  "
    }
}

/// The text after a distribution's state on the dashboard: `] WSL<version>`.
pub fn version_suffix(version: u8) -> (r: String)
    ensures
        r@ == "] WSL"@ + decimal(version as nat),
{
    let mut r = owned("] WSL");
    r.append(decimal_string(version as u64).as_str());
    r
}

/// The icon of a distribution's state in the WSL tab.
pub open spec fn state_icon_text(s: WslState) -> Seq<char> {
    match s {
        WslState::Running => " ● "@,
        WslState::Stopped => " ○ "@,
        _ => " ◌ "@,
    }
}

/// The icon of a distribution's state in the WSL tab: a full circle when
/// running, an empty one when stopped, a dotted one otherwise.
pub fn state_icon(s: WslState) -> (r: &'static str)
    ensures
        r@ == state_icon_text(s),
{
    match s {
        WslState::Running => " ● ",
        WslState::Stopped => " ○ ",
        _ => " ◌ ",
    }
}

/// A distribution in the WSL tab: `name (WSL<version>)`.
pub fn distribution_entry(d: &WslDistribution) -> (r: String)
    ensures
        r@ == d.name@ + " (WSL"@ + decimal(d.version as nat) + ")"@,
{
    let mut r = d.name.clone();
    r.append(" (WSL");
    r.append(decimal_string(d.version as u64).as_str());
    r.append(")");
    r
}

/// How a line of command output is shown.
#[derive(Debug, Clone, Copy, PartialEq, Eq, Structural)]
pub enum OutputKind {
    /// The echo of a command: the line starts with `$`.
    Command,
    /// A failure: the line starts with `Error:`.
    Error,
    /// Anything else.
    Plain,
}

/// How a line of command output is shown.
pub open spec fn output_kind_of(line: Seq<char>) -> OutputKind {
    if line.len() > 0 && line[0] == '$' {
        OutputKind::Command
    } else if "Error:"@.is_prefix_of(line) {
        OutputKind::Error
    } else {
        OutputKind::Plain
    }
}

/// How a line of command output is shown: a command echo, an error or
/// plain text.
pub fn output_kind(line: &str) -> (r: OutputKind)
    ensures
        r == output_kind_of(line@),
{
    let chars = crate::text::chars_of(line);
    if chars.len() > 0 && chars[0] == '$' {
        return OutputKind::Command;
    }
    let prefix = crate::text::chars_of("Error:");
    proof {
        reveal_strlit("Error:");
    }
    if chars.len() < prefix.len() {
        assert(!"Error:"@.is_prefix_of(line@));
        return OutputKind::Plain;
    }
    let mut i: usize = 0;
    while i < prefix.len()
        invariant
            i <= prefix@.len() <= chars@.len(),
            prefix@ == "Error:"@,
            chars@ == line@,
            !(chars@.len() > 0 && chars@[0] == '$'),
            forall|j: int| 0 <= j < i ==> chars@[j] == prefix@[j],
        decreases prefix@.len() - i,
    {
        if chars[i] != prefix[i] {
            assert(!"Error:"@.is_prefix_of(line@));
            return OutputKind::Plain;
        }
        i += 1;
    }
    assert(line@.subrange(0, prefix@.len() as int) =~= "Error:"@);
    OutputKind::Error
}

/// The labels of the SSH form's fields, in order.
pub open spec fn form_labels() -> Seq<Seq<char>> {
    seq!["Host"@, "Port"@, "Username"@, "Password"@]
}

/// The label cell of the SSH form's field at `index`: `  <label>: `.
pub fn form_label(index: usize) -> (r: String)
    requires
        index < 4,
    ensures
        r@ == "  "@ + form_labels()[index as int] + ": "@,
{
    let mut r = owned("  ");
    if index == 0 {
        r.append("Host");
    } else if index == 1 {
        r.append("Port");
    } else if index == 2 {
        r.append("Username");
    } else {
        r.append("Password");
    }
    r.append(": ");
    r
}

/// The value cell of an SSH form field: the value, or for the password
/// one star per byte of its UTF-8 form (as `str::len` counts them); then a
/// block cursor when the field is being edited.
pub open spec fn form_value_text(is_password: bool, value: Seq<char>, editing: bool) -> Seq<char> {
    (if is_password && value.len() > 0 {
        Seq::new((encode_utf8(value).len() as usize) as nat, |i: int| '*')
    } else {
        value
    }) + (if editing { "█"@ } else { ""@ })
}

/// The value cell of an SSH form field: the value as typed, or for the
/// password as many stars as it has bytes; followed by a block cursor when
/// `editing`.
pub fn form_value(is_password: bool, value: &str, editing: bool) -> (r: String)
    ensures
        r@ == form_value_text(is_password, value@, editing),
{
    let mut r = String::new();
    if is_password && !value.is_empty() {
        let n = value.len();
        let mut i: usize = 0;
        while i < n
            invariant
                i <= n,
                n == encode_utf8(value@).len() as usize,
                r@ == Seq::new(i as nat, |k: int| '*'),
            decreases n - i,
        {
            crate::text::push_char(&mut r, '*');
            assert(r@ =~= Seq::new((i + 1) as nat, |k: int| '*'));
            i += 1;
        }
    } else {
        r.append(value);
    }
    if editing {
        r.append("█");
    }
    proof {
        reveal_strlit("█");
        reveal_strlit("");
    }
    r
}

/// A typed password is never shown: its cell holds only stars and the
/// cursor, at least one star per character.
pub proof fn law_password_never_shown(value: Seq<char>, editing: bool)
    requires
        value.len() > 0,
        encode_utf8(value).len() <= usize::MAX,
    ensures
        forall|i: int|
            0 <= i < form_value_text(true, value, editing).len() ==> {
                let c = #[trigger] form_value_text(true, value, editing)[i];
                c == '*' || c == '█'
            },
        form_value_text(true, value, editing).len() >= value.len(),
{
    reveal_strlit("█");
    reveal_strlit("");
    lemma_utf8_at_least_one_byte_per_char(value);
}

/// Every character takes at least one byte in UTF-8.
proof fn lemma_utf8_at_least_one_byte_per_char(value: Seq<char>)
    ensures
        encode_utf8(value).len() >= value.len(),
    decreases value.len(),
{
    if value.len() > 0 {
        lemma_utf8_at_least_one_byte_per_char(value.drop_first());
        vstd::utf8::char_is_scalar(value[0]);
    }
}

/// The title of the command input box.
pub fn input_title(input_mode: bool) -> (r: &'static str)
    ensures
        r@ == (if input_mode { " Input (Esc to exit) "@ } else { " Press 'i' to type "@ }),
{
    if input_mode {
        " Input (Esc to exit) "
    } else {
        " Press 'i' to type "
    }
}

/// `used / total MB`, as the memory and swap lines show it.
pub fn used_of_total(used: u64, total: u64) -> (r: String)
    ensures
        r@ == decimal(used as nat) + " / "@ + decimal(total as nat) + " MB"@,
{
    let mut r = decimal_string(used);
    r.append(" / ");
    r.append(decimal_string(total).as_str());
    r.append(" MB");
    r
}

/// The percentages of the margins and of the middle of a popup that takes
/// `percent` of the screen, centred: `(margin, percent, margin)`.
pub fn centered_split(percent: u16) -> (r: (u16, u16, u16))
    requires
        percent <= 100,
    ensures
        r.1 == percent,
        r.0 == r.2,
        r.0 == (100 - percent) / 2,
        r.0 + r.1 + r.2 <= 100,
{
    let margin = (100 - percent) / 2;
    (margin, percent, margin)
}

} // verus!
