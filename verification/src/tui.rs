//! The state of the terminal user interface and how keys change it.

use vstd::prelude::*;
use crate::error::{is_message_of, Result};
use crate::session::{is_first_with_id, Session, SessionManager};
use crate::text::{
    chars_of, concat2, decimal, decimal_string, lines, owned, pop_char, push_char, split_lines,
    string_from_chars, views,
};
use crate::wsl::{string_views, WslDistribution, WslManager};

verus! {

/// A tab of the interface.
#[derive(Debug, Clone, Copy, PartialEq, Eq, Structural)]
pub enum Tab {
    Dashboard,
    Wsl,
    Ssh,
    Sftp,
    Tunnels,
    Sessions,
    SysInfo,
}

/// The number of tabs.
pub open spec fn tab_count() -> nat {
    7
}

/// The tabs in the order they are shown.
pub open spec fn tab_order() -> Seq<Tab> {
    seq![
        Tab::Dashboard,
        Tab::Wsl,
        Tab::Ssh,
        Tab::Sftp,
        Tab::Tunnels,
        Tab::Sessions,
        Tab::SysInfo,
    ]
}

/// The position of a tab in the order they are shown.
pub open spec fn tab_index(t: Tab) -> nat {
    match t {
        Tab::Dashboard => 0,
        Tab::Wsl => 1,
        Tab::Ssh => 2,
        Tab::Sftp => 3,
        Tab::Tunnels => 4,
        Tab::Sessions => 5,
        Tab::SysInfo => 6,
    }
}

/// The title shown on a tab.
pub open spec fn tab_title(t: Tab) -> Seq<char> {
    match t {
        Tab::Dashboard => "Dashboard"@,
        Tab::Wsl => "WSL2"@,
        Tab::Ssh => "SSH"@,
        Tab::Sftp => "SFTP"@,
        Tab::Tunnels => "Tunnels"@,
        Tab::Sessions => "Sessions"@,
        Tab::SysInfo => "System"@,
    }
}

/// The tab after `t`, the last one followed by the first.
pub open spec fn tab_after(t: Tab) -> Tab {
    tab_order()[((tab_index(t) + 1) % tab_count()) as int]
}

/// The tab before `t`, the first one preceded by the last.
pub open spec fn tab_before(t: Tab) -> Tab {
    if tab_index(t) == 0 {
        tab_order()[tab_count() - 1]
    } else {
        tab_order()[tab_index(t) - 1]
    }
}

impl Tab {
    /// Every tab, in the order they are shown.
    pub fn all() -> (r: &'static [Tab])
        ensures
            r@ == tab_order(),
    {
        let r: &'static [Tab] = &[
            Tab::Dashboard,
            Tab::Wsl,
            Tab::Ssh,
            Tab::Sftp,
            Tab::Tunnels,
            Tab::Sessions,
            Tab::SysInfo,
        ];
        assert(r@ =~= tab_order());
        r
    }

    /// The title shown on the tab.
    pub fn title(&self) -> (r: &'static str)
        ensures
            r@ == tab_title(*self),
    {
        match self {
            Tab::Dashboard => "Dashboard",
            Tab::Wsl => "WSL2",
            Tab::Ssh => "SSH",
            Tab::Sftp => "SFTP",
            Tab::Tunnels => "Tunnels",
            Tab::Sessions => "Sessions",
            Tab::SysInfo => "System",
        }
    }

    /// The position of the tab in the order they are shown.
    pub fn index(&self) -> (r: usize)
        ensures
            r == tab_index(*self),
    {
        match self {
            Tab::Dashboard => 0,
            Tab::Wsl => 1,
            Tab::Ssh => 2,
            Tab::Sftp => 3,
            Tab::Tunnels => 4,
            Tab::Sessions => 5,
            Tab::SysInfo => 6,
        }
    }
}

/// `secs` as days, hours and minutes: `1d 2h 3m`, `2h 3m` under a day,
/// `3m` under an hour.
pub open spec fn uptime_text(secs: nat) -> Seq<char> {
    let days = secs / 86400;
    let hours = (secs % 86400) / 3600;
    let minutes = (secs % 3600) / 60;
    if days > 0 {
        decimal(days) + "d "@ + decimal(hours) + "h "@ + decimal(minutes) + "m"@
    } else if hours > 0 {
        decimal(hours) + "h "@ + decimal(minutes) + "m"@
    } else {
        decimal(minutes) + "m"@
    }
}

/// How long the machine has been up, in days, hours and minutes.
pub fn format_uptime(secs: u64) -> (r: String)
    ensures
        r@ == uptime_text(secs as nat),
{
    let days: u64 = secs / 86400;
    let hours: u64 = (secs % 86400) / 3600;
    let minutes: u64 = (secs % 3600) / 60;
    if days > 0 {
        let mut r = decimal_string(days);
        r.append("d ");
        r.append(decimal_string(hours).as_str());
        r.append("h ");
        r.append(decimal_string(minutes).as_str());
        r.append("m");
        r
    } else if hours > 0 {
        let mut r = decimal_string(hours);
        r.append("h ");
        r.append(decimal_string(minutes).as_str());
        r.append("m");
        r
    } else {
        let mut r = decimal_string(minutes);
        r.append("m");
        r
    }
}


/// The fields of the form for a new SSH connection.
#[derive(Debug, Clone)]
pub struct SshFormState {
    pub host: String,
    pub port: String,
    pub username: String,
    pub password: String,
    /// The field being edited: 0 host, 1 port, 2 user name, 3 password.
    pub focused_field: usize,
}

/// The model of the SSH form.
#[verifier::ext_equal]
pub ghost struct FormView {
    pub host: Seq<char>,
    pub port: Seq<char>,
    pub username: Seq<char>,
    pub password: Seq<char>,
    pub focused_field: usize,
}

impl View for SshFormState {
    type V = FormView;

    open spec fn view(&self) -> FormView {
        FormView {
            host: self.host@,
            port: self.port@,
            username: self.username@,
            password: self.password@,
            focused_field: self.focused_field,
        }
    }
}

impl Default for SshFormState {
    fn default() -> (r: Self)
        ensures
            r@ == (FormView {
                host: seq![],
                port: "22"@,
                username: seq![],
                password: seq![],
                focused_field: 0,
            }),
    {
        SshFormState {
            host: String::new(),
            port: owned("22"),
            username: String::new(),
            password: String::new(),
            focused_field: 0,
        }
    }
}

/// `s` with its last character removed, if it has one.
pub open spec fn drop_last_char(s: Seq<char>) -> Seq<char> {
    if s.len() > 0 {
        s.drop_last()
    } else {
        s
    }
}

/// The form after `edit` is applied to the focused field; any number past
/// the password focuses the host.
pub open spec fn edit_focused(f: FormView, edit: spec_fn(Seq<char>) -> Seq<char>) -> FormView {
    if f.focused_field == 1 {
        FormView { port: edit(f.port), ..f }
    } else if f.focused_field == 2 {
        FormView { username: edit(f.username), ..f }
    } else if f.focused_field == 3 {
        FormView { password: edit(f.password), ..f }
    } else {
        FormView { host: edit(f.host), ..f }
    }
}

impl SshFormState {
    /// The field being edited: the host for any number past the password.
    pub fn focused_field_mut(&mut self) -> (r: &mut String)
        ensures
            *r == match old(self).focused_field {
                1 => old(self).port,
                2 => old(self).username,
                3 => old(self).password,
                _ => old(self).host,
            },
            final(self)@ == edit_focused(old(self)@, |t: Seq<char>| final(r)@),
    {
        match self.focused_field {
            1 => &mut self.port,
            2 => &mut self.username,
            3 => &mut self.password,
            _ => &mut self.host,
        }
    }
}

/// A key as the interface reads it.
#[derive(Debug, Clone, Copy, PartialEq, Eq, Structural)]
pub enum Key {
    Char(char),
    Esc,
    Enter,
    Backspace,
    Tab,
    BackTab,
    Up,
    Down,
    Left,
    Right,
    /// Any other key, which nothing is bound to.
    Other,
}

/// Outside work that a key asks for, which the caller performs and then
/// reports back.
#[derive(Debug, Clone, Copy, PartialEq, Eq, Structural)]
pub enum Effect {
    /// Nothing.
    Nothing,
    /// Run the typed command in the selected distribution
    /// (`App::wsl_command_target`, then `App::exec_wsl_command`).
    ExecWslCommand,
    /// Count the distributions and select the next one
    /// (`App::select_next_distribution`).
    SelectNextDistribution,
    /// Count the distributions and select the previous one
    /// (`App::select_prev_distribution`).
    SelectPrevDistribution,
    /// Start the selected distribution (`App::selected_distribution`, then
    /// `App::distribution_started`).
    StartSelectedDistribution,
    /// Terminate the selected distribution (`App::selected_distribution`,
    /// then `App::distribution_stopped`).
    StopSelectedDistribution,
    /// Save the session list; a failure is not reported.
    SaveSessions,
}

/// The state of the interface.
pub struct App {
    pub running: bool,
    pub active_tab: Tab,
    pub session_manager: SessionManager,
    pub wsl_manager: WslManager,
    pub status_message: String,
    pub wsl_selected: usize,
    pub session_selected: usize,
    pub ssh_form: SshFormState,
    pub command_input: String,
    pub command_output: Vec<String>,
    pub input_mode: bool,
    pub show_help: bool,
}

/// The model of the interface's state.
#[verifier::ext_equal]
pub ghost struct AppView {
    pub running: bool,
    pub active_tab: Tab,
    pub sessions: Seq<Session>,
    pub sessions_file: Seq<char>,
    pub status: Seq<char>,
    pub wsl_selected: usize,
    pub session_selected: usize,
    pub form: FormView,
    pub command_input: Seq<char>,
    pub command_output: Seq<Seq<char>>,
    pub input_mode: bool,
    pub show_help: bool,
}

impl View for App {
    type V = AppView;

    open spec fn view(&self) -> AppView {
        AppView {
            running: self.running,
            active_tab: self.active_tab,
            sessions: self.session_manager.sessions@,
            sessions_file: self.session_manager.file_path@,
            status: self.status_message@,
            wsl_selected: self.wsl_selected,
            session_selected: self.session_selected,
            form: self.ssh_form@,
            command_input: self.command_input@,
            command_output: string_views(self.command_output@),
            input_mode: self.input_mode,
            show_help: self.show_help,
        }
    }
}

/// The selection after moving down a list of `count` entries: the next
/// entry, the first after the last; unchanged in an empty list.
pub open spec fn select_next(sel: usize, count: usize) -> usize {
    if count > 0 {
        ((sel + 1) % (count as int)) as usize
    } else {
        sel
    }
}

/// The selection after moving up a list of `count` entries: the previous
/// entry, the last before the first; unchanged in an empty list.
pub open spec fn select_prev(sel: usize, count: usize) -> usize {
    if count > 0 {
        if sel == 0 {
            (count - 1) as usize
        } else {
            (sel - 1) as usize
        }
    } else {
        sel
    }
}

/// The position of the first session with identifier `id`.
pub open spec fn first_with_id(s: Seq<Session>, id: Seq<char>) -> int {
    choose|i: int| is_first_with_id(s, id, i)
}

/// The status line while connecting with the SSH form.
pub open spec fn connecting_text(f: FormView) -> Seq<char> {
    "Connecting to "@ + f.username + "@"@ + f.host + ":"@ + f.port + "..."@
}

/// What a key does in normal mode: the new state and the outside work asked
/// for.
pub open spec fn normal_key(v: AppView, k: Key) -> (AppView, Effect) {
    if k == Key::Char('q') {
        (AppView { running: false, ..v }, Effect::Nothing)
    } else if k == Key::Char('?') {
        (AppView { show_help: !v.show_help, ..v }, Effect::Nothing)
    } else if k == Key::Tab || k == Key::Right || k == Key::Char('l') {
        if !v.show_help {
            (AppView { active_tab: tab_after(v.active_tab), ..v }, Effect::Nothing)
        } else {
            (v, Effect::Nothing)
        }
    } else if k == Key::BackTab || k == Key::Left || k == Key::Char('h') {
        if !v.show_help {
            (AppView { active_tab: tab_before(v.active_tab), ..v }, Effect::Nothing)
        } else {
            (v, Effect::Nothing)
        }
    } else if k == Key::Char('1') {
        (AppView { active_tab: Tab::Dashboard, ..v }, Effect::Nothing)
    } else if k == Key::Char('2') {
        (AppView { active_tab: Tab::Wsl, ..v }, Effect::Nothing)
    } else if k == Key::Char('3') {
        (AppView { active_tab: Tab::Ssh, ..v }, Effect::Nothing)
    } else if k == Key::Char('4') {
        (AppView { active_tab: Tab::Sftp, ..v }, Effect::Nothing)
    } else if k == Key::Char('5') {
        (AppView { active_tab: Tab::Tunnels, ..v }, Effect::Nothing)
    } else if k == Key::Char('6') {
        (AppView { active_tab: Tab::Sessions, ..v }, Effect::Nothing)
    } else if k == Key::Char('7') {
        (AppView { active_tab: Tab::SysInfo, ..v }, Effect::Nothing)
    } else if k == Key::Char('i') {
        (AppView { input_mode: true, ..v }, Effect::Nothing)
    } else if k == Key::Down || k == Key::Char('j') {
        if v.active_tab == Tab::Wsl {
            (v, Effect::SelectNextDistribution)
        } else if v.active_tab == Tab::Sessions {
            (
                AppView {
                    session_selected: select_next(v.session_selected, v.sessions.len() as usize),
                    ..v
                },
                Effect::Nothing,
            )
        } else {
            (v, Effect::Nothing)
        }
    } else if k == Key::Up || k == Key::Char('k') {
        if v.active_tab == Tab::Wsl {
            (v, Effect::SelectPrevDistribution)
        } else if v.active_tab == Tab::Sessions {
            (
                AppView {
                    session_selected: select_prev(v.session_selected, v.sessions.len() as usize),
                    ..v
                },
                Effect::Nothing,
            )
        } else {
            (v, Effect::Nothing)
        }
    } else if k == Key::Char('s') && v.active_tab == Tab::Wsl {
        (v, Effect::StartSelectedDistribution)
    } else if k == Key::Char('x') && v.active_tab == Tab::Wsl {
        (v, Effect::StopSelectedDistribution)
    } else if k == Key::Char('d') && v.active_tab == Tab::Sessions {
        if v.session_selected < v.sessions.len() {
            let id = v.sessions[v.session_selected as int].id@;
            (
                AppView {
                    sessions: v.sessions.remove(first_with_id(v.sessions, id)),
                    status: "Session deleted"@,
                    session_selected: if v.session_selected > 0 {
                        (v.session_selected - 1) as usize
                    } else {
                        v.session_selected
                    },
                    ..v
                },
                Effect::SaveSessions,
            )
        } else {
            (v, Effect::Nothing)
        }
    } else {
        (v, Effect::Nothing)
    }
}

/// What a key does in input mode: typing into the command line on the WSL
/// tab and into the form on the SSH tab; `Esc` leaves input mode.
pub open spec fn input_key(v: AppView, k: Key) -> (AppView, Effect) {
    if v.active_tab == Tab::Wsl {
        if k == Key::Esc {
            (AppView { input_mode: false, ..v }, Effect::Nothing)
        } else if k == Key::Enter {
            (
                AppView { input_mode: false, ..v },
                if v.command_input.len() > 0 {
                    Effect::ExecWslCommand
                } else {
                    Effect::Nothing
                },
            )
        } else if k == Key::Backspace {
            (AppView { command_input: drop_last_char(v.command_input), ..v }, Effect::Nothing)
        } else if k is Char {
            (AppView { command_input: v.command_input.push(k->Char_0), ..v }, Effect::Nothing)
        } else {
            (v, Effect::Nothing)
        }
    } else if v.active_tab == Tab::Ssh {
        if k == Key::Esc {
            (AppView { input_mode: false, ..v }, Effect::Nothing)
        } else if k == Key::Tab {
            (
                AppView {
                    form: FormView {
                        focused_field: ((v.form.focused_field + 1) % 4) as usize,
                        ..v.form
                    },
                    ..v
                },
                Effect::Nothing,
            )
        } else if k == Key::BackTab {
            (
                AppView {
                    form: FormView {
                        focused_field: if v.form.focused_field == 0 {
                            3
                        } else {
                            (v.form.focused_field - 1) as usize
                        },
                        ..v.form
                    },
                    ..v
                },
                Effect::Nothing,
            )
        } else if k == Key::Backspace {
            (
                AppView { form: edit_focused(v.form, |t: Seq<char>| drop_last_char(t)), ..v },
                Effect::Nothing,
            )
        } else if k is Char {
            (
                AppView { form: edit_focused(v.form, |t: Seq<char>| t.push(k->Char_0)), ..v },
                Effect::Nothing,
            )
        } else if k == Key::Enter {
            (AppView { input_mode: false, status: connecting_text(v.form), ..v }, Effect::Nothing)
        } else {
            (v, Effect::Nothing)
        }
    } else {
        if k == Key::Esc {
            (AppView { input_mode: false, ..v }, Effect::Nothing)
        } else {
            (v, Effect::Nothing)
        }
    }
}

/// What a key press does: `Ctrl+C` quits from anywhere; otherwise the key
/// acts as input mode or normal mode says.
pub open spec fn key_press(v: AppView, k: Key, ctrl: bool) -> (AppView, Effect) {
    if ctrl && k == Key::Char('c') {
        (AppView { running: false, ..v }, Effect::Nothing)
    } else if v.input_mode {
        input_key(v, k)
    } else {
        normal_key(v, k)
    }
}

/// The output lines that a command run in a distribution adds, and the
/// status line after it: the command and its output lines where it ran, the
/// error where it failed.
pub open spec fn command_report(input: Seq<char>, out: Seq<char>) -> Seq<Seq<char>> {
    seq!["$ "@ + input] + lines(out)
}

impl App {
    /// The interface at start: the dashboard, with the saved sessions.
    pub fn new(session_manager: SessionManager) -> (r: Self)
        ensures
            r@ == (AppView {
                running: true,
                active_tab: Tab::Dashboard,
                sessions: session_manager.sessions@,
                sessions_file: session_manager.file_path@,
                status: "Welcome to Lagide - Press ? for help"@,
                wsl_selected: 0,
                session_selected: 0,
                form: FormView {
                    host: seq![],
                    port: "22"@,
                    username: seq![],
                    password: seq![],
                    focused_field: 0,
                },
                command_input: seq![],
                command_output: seq![],
                input_mode: false,
                show_help: false,
            }),
    {
        let r = App {
            running: true,
            active_tab: Tab::Dashboard,
            session_manager,
            wsl_manager: WslManager::new(),
            status_message: owned("Welcome to Lagide - Press ? for help"),
            wsl_selected: 0,
            session_selected: 0,
            ssh_form: SshFormState::default(),
            command_input: String::new(),
            command_output: Vec::new(),
            input_mode: false,
            show_help: false,
        };
        assert(string_views(r.command_output@) =~= Seq::<Seq<char>>::empty());
        r
    }

    /// Moves to the next tab, the first after the last.
    pub fn next_tab(&mut self)
        ensures
            final(self)@ == (AppView { active_tab: tab_after(old(self).active_tab), ..old(self)@ }),
    {
        let tabs = Tab::all();
        let idx: usize = self.active_tab.index();
        self.active_tab = tabs[(idx + 1) % tabs.len()];
    }

    /// Moves to the previous tab, the last before the first.
    pub fn prev_tab(&mut self)
        ensures
            final(self)@ == (AppView { active_tab: tab_before(old(self).active_tab), ..old(self)@ }),
    {
        let tabs = Tab::all();
        let idx: usize = self.active_tab.index();
        self.active_tab = if idx == 0 {
            tabs[tabs.len() - 1]
        } else {
            tabs[idx - 1]
        };
    }

    /// Stops the interface.
    pub fn quit(&mut self)
        ensures
            final(self)@ == (AppView { running: false, ..old(self)@ }),
    {
        self.running = false;
    }
}


/// The next position in a list of `count` entries, computed without
/// overflow.
fn next_position(sel: usize, count: usize) -> (r: usize)
    requires
        count > 0,
    ensures
        r == select_next(sel, count),
{
    proof {
        vstd::arithmetic::div_mod::lemma_add_mod_noop_right(1, sel as int, count as int);
    }
    (sel % count + 1) % count
}

/// The previous position in a list of `count` entries.
fn prev_position(sel: usize, count: usize) -> (r: usize)
    requires
        count > 0,
    ensures
        r == select_prev(sel, count),
{
    if sel == 0 {
        count - 1
    } else {
        sel - 1
    }
}

impl App {
    /// Deletes the selected session, if the selection is in the list, and
    /// asks for the list to be saved.
    fn delete_selected_session(&mut self) -> (r: Effect)
        requires
            old(self).active_tab == Tab::Sessions,
        ensures
            (final(self)@, r) == normal_key(old(self)@, Key::Char('d')),
    {
        let sel = self.session_selected;
        if sel < self.session_manager.sessions.len() {
            let id = self.session_manager.sessions[sel].id.clone();
            let ghost before = self.session_manager.sessions@;
            let removed = self.session_manager.remove_session(id.as_str());
            proof {
                assert(!crate::session::has_no_id(before, id@)) by {
                    assert(before[sel as int].id@ == id@);
                }
                let i = choose|i: int|
                    is_first_with_id(before, id@, i) && self.session_manager.sessions@
                        == before.remove(i);
                let j = first_with_id(before, id@);
                crate::session::law_first_with_id_unique(before, id@, i, j);
            }
            self.status_message = owned("Session deleted");
            if self.session_selected > 0 {
                self.session_selected = self.session_selected - 1;
            }
            Effect::SaveSessions
        } else {
            Effect::Nothing
        }
    }

    /// What a key does in normal mode.
    pub fn handle_normal_mode(&mut self, key: Key) -> (r: Effect)
        ensures
            (final(self)@, r) == normal_key(old(self)@, key),
    {
        match key {
            Key::Char('q') => {
                self.quit();
                Effect::Nothing
            },
            Key::Char('?') => {
                self.show_help = !self.show_help;
                Effect::Nothing
            },
            Key::Tab | Key::Right | Key::Char('l') => {
                if !self.show_help {
                    self.next_tab();
                }
                Effect::Nothing
            },
            Key::BackTab | Key::Left | Key::Char('h') => {
                if !self.show_help {
                    self.prev_tab();
                }
                Effect::Nothing
            },
            Key::Char('1') => {
                self.active_tab = Tab::Dashboard;
                Effect::Nothing
            },
            Key::Char('2') => {
                self.active_tab = Tab::Wsl;
                Effect::Nothing
            },
            Key::Char('3') => {
                self.active_tab = Tab::Ssh;
                Effect::Nothing
            },
            Key::Char('4') => {
                self.active_tab = Tab::Sftp;
                Effect::Nothing
            },
            Key::Char('5') => {
                self.active_tab = Tab::Tunnels;
                Effect::Nothing
            },
            Key::Char('6') => {
                self.active_tab = Tab::Sessions;
                Effect::Nothing
            },
            Key::Char('7') => {
                self.active_tab = Tab::SysInfo;
                Effect::Nothing
            },
            Key::Char('i') => {
                self.input_mode = true;
                Effect::Nothing
            },
            Key::Down | Key::Char('j') => {
                if self.active_tab == Tab::Wsl {
                    Effect::SelectNextDistribution
                } else if self.active_tab == Tab::Sessions {
                    let count = self.session_manager.sessions.len();
                    if count > 0 {
                        self.session_selected = next_position(self.session_selected, count);
                    }
                    Effect::Nothing
                } else {
                    Effect::Nothing
                }
            },
            Key::Up | Key::Char('k') => {
                if self.active_tab == Tab::Wsl {
                    Effect::SelectPrevDistribution
                } else if self.active_tab == Tab::Sessions {
                    let count = self.session_manager.sessions.len();
                    if count > 0 {
                        self.session_selected = prev_position(self.session_selected, count);
                    }
                    Effect::Nothing
                } else {
                    Effect::Nothing
                }
            },
            _ => {
                if key == Key::Char('s') && self.active_tab == Tab::Wsl {
                    Effect::StartSelectedDistribution
                } else if key == Key::Char('x') && self.active_tab == Tab::Wsl {
                    Effect::StopSelectedDistribution
                } else if key == Key::Char('d') && self.active_tab == Tab::Sessions {
                    self.delete_selected_session()
                } else {
                    Effect::Nothing
                }
            },
        }
    }

    /// What a key does in input mode.
    pub fn handle_input_mode(&mut self, key: Key) -> (r: Effect)
        ensures
            (final(self)@, r) == input_key(old(self)@, key),
    {
        if self.active_tab == Tab::Wsl {
            match key {
                Key::Esc => {
                    self.input_mode = false;
                    Effect::Nothing
                },
                Key::Enter => {
                    self.input_mode = false;
                    if self.command_input.as_str().is_empty() {
                        Effect::Nothing
                    } else {
                        Effect::ExecWslCommand
                    }
                },
                Key::Backspace => {
                    pop_char(&mut self.command_input);
                    Effect::Nothing
                },
                Key::Char(c) => {
                    push_char(&mut self.command_input, c);
                    Effect::Nothing
                },
                _ => Effect::Nothing,
            }
        } else if self.active_tab == Tab::Ssh {
            match key {
                Key::Esc => {
                    self.input_mode = false;
                    Effect::Nothing
                },
                Key::Tab => {
                    self.ssh_form.focused_field = (self.ssh_form.focused_field % 4 + 1) % 4;
                    proof {
                        vstd::arithmetic::div_mod::lemma_add_mod_noop_right(
                            1,
                            old(self).ssh_form.focused_field as int,
                            4,
                        );
                    }
                    Effect::Nothing
                },
                Key::BackTab => {
                    self.ssh_form.focused_field =
                        if self.ssh_form.focused_field == 0 {
                            3
                        } else {
                            self.ssh_form.focused_field - 1
                        };
                    Effect::Nothing
                },
                Key::Backspace => {
                    let field = self.ssh_form.focused_field_mut();
                    pop_char(field);
                    Effect::Nothing
                },
                Key::Char(c) => {
                    let field = self.ssh_form.focused_field_mut();
                    push_char(field, c);
                    Effect::Nothing
                },
                Key::Enter => {
                    self.input_mode = false;
                    let mut m = concat2("Connecting to ", self.ssh_form.username.as_str());
                    m.append("@");
                    m.append(self.ssh_form.host.as_str());
                    m.append(":");
                    m.append(self.ssh_form.port.as_str());
                    m.append("...");
                    self.status_message = m;
                    Effect::Nothing
                },
                _ => Effect::Nothing,
            }
        } else {
            if key == Key::Esc {
                self.input_mode = false;
            }
            Effect::Nothing
        }
    }

    /// What a key press does: `Ctrl+C` quits from anywhere; otherwise the
    /// key acts in input mode or normal mode.
    pub fn handle_key(&mut self, key: Key, ctrl: bool) -> (r: Effect)
        ensures
            (final(self)@, r) == key_press(old(self)@, key, ctrl),
    {
        if ctrl && key == Key::Char('c') {
            self.quit();
            Effect::Nothing
        } else if self.input_mode {
            self.handle_input_mode(key)
        } else {
            self.handle_normal_mode(key)
        }
    }

    /// Selects the next of `count` distributions.
    pub fn select_next_distribution(&mut self, count: usize)
        ensures
            final(self)@ == (AppView {
                wsl_selected: select_next(old(self).wsl_selected, count),
                ..old(self)@
            }),
    {
        if count > 0 {
            self.wsl_selected = next_position(self.wsl_selected, count);
        }
    }

    /// Selects the previous of `count` distributions.
    pub fn select_prev_distribution(&mut self, count: usize)
        ensures
            final(self)@ == (AppView {
                wsl_selected: select_prev(old(self).wsl_selected, count),
                ..old(self)@
            }),
    {
        if count > 0 {
            self.wsl_selected = prev_position(self.wsl_selected, count);
        }
    }

    /// The name of the selected distribution, if the selection is in the
    /// list `distros`.
    pub fn selected_distribution(&self, distros: &Vec<WslDistribution>) -> (r: Option<String>)
        ensures
            match r {
                Some(n) => self.wsl_selected < distros@.len() && n@
                    == distros@[self.wsl_selected as int].name@,
                None => self.wsl_selected >= distros@.len(),
            },
    {
        if self.wsl_selected < distros.len() {
            Some(distros[self.wsl_selected].name.clone())
        } else {
            None
        }
    }

    /// The distribution that the typed command is to run in: the selected
    /// one, where a command has been typed.
    pub fn wsl_command_target(&self, distros: &Vec<WslDistribution>) -> (r: Option<String>)
        ensures
            match r {
                Some(n) => self.command_input@.len() > 0 && self.wsl_selected < distros@.len()
                    && n@ == distros@[self.wsl_selected as int].name@,
                None => self.command_input@.len() == 0 || self.wsl_selected >= distros@.len(),
            },
    {
        if self.command_input.as_str().is_empty() {
            None
        } else {
            self.selected_distribution(distros)
        }
    }

    /// Reports the outcome of starting the distribution `name`.
    pub fn distribution_started(&mut self, name: &str, outcome: Result<()>)
        ensures
            final(self)@ == (AppView { status: final(self)@.status, ..old(self)@ }),
            match outcome {
                Ok(()) => final(self)@.status == "Started "@ + name@,
                Err(e) => final(self)@.status.len() >= 7 && final(self)@.status.take(7)
                    == "Error: "@ && is_message_of(e, final(self)@.status.skip(7)),
            },
    {
        self.report_action("Started ", name, outcome);
    }

    /// Reports the outcome of terminating the distribution `name`.
    pub fn distribution_stopped(&mut self, name: &str, outcome: Result<()>)
        ensures
            final(self)@ == (AppView { status: final(self)@.status, ..old(self)@ }),
            match outcome {
                Ok(()) => final(self)@.status == "Stopped "@ + name@,
                Err(e) => final(self)@.status.len() >= 7 && final(self)@.status.take(7)
                    == "Error: "@ && is_message_of(e, final(self)@.status.skip(7)),
            },
    {
        self.report_action("Stopped ", name, outcome);
    }

    fn report_action(&mut self, verb: &str, name: &str, outcome: Result<()>)
        ensures
            final(self)@ == (AppView { status: final(self)@.status, ..old(self)@ }),
            match outcome {
                Ok(()) => final(self)@.status == verb@ + name@,
                Err(e) => final(self)@.status.len() >= 7 && final(self)@.status.take(7)
                    == "Error: "@ && is_message_of(e, final(self)@.status.skip(7)),
            },
    {
        match outcome {
            Ok(()) => {
                self.status_message = concat2(verb, name);
            },
            Err(e) => {
                let m = e.message();
                let t = concat2("Error: ", m.as_str());
                proof {
                    reveal_strlit("Error: ");
                }
                assert(t@.skip(7) =~= m@);
                assert(t@.take(7) =~= "Error: "@);
                self.status_message = t;
            },
        }
    }
}


impl App {
    /// Reports the run of the typed command: `None` where no distribution
    /// is selected. Where a command was typed, the output gets the command
    /// and its output lines, or the error, and the command line is cleared;
    /// where none was typed, nothing changes.
    pub fn exec_wsl_command(&mut self, outcome: Option<Result<String>>)
        ensures
            old(self).command_input@.len() == 0 ==> final(self)@ == old(self)@,
            old(self).command_input@.len() > 0 ==> match outcome {
                None => final(self)@ == (AppView { command_input: seq![], ..old(self)@ }),
                Some(Ok(out)) => final(self)@ == (AppView {
                    command_input: seq![],
                    command_output: old(self)@.command_output + command_report(
                        old(self)@.command_input,
                        out@,
                    ),
                    status: "Command executed successfully"@,
                    ..old(self)@
                }),
                Some(Err(e)) => final(self)@ == (AppView {
                    command_input: seq![],
                    command_output: old(self)@.command_output.push(final(self)@.status),
                    status: final(self)@.status,
                    ..old(self)@
                }) && final(self)@.status.len() >= 7 && final(self)@.status.take(7) == "Error: "@
                    && is_message_of(e, final(self)@.status.skip(7)),
            },
    {
        if self.command_input.as_str().is_empty() {
            return;
        }
        match outcome {
            None => {
                self.command_input = String::new();
                assert(self@ =~= (AppView { command_input: seq![], ..old(self)@ }));
                return;
            },
            Some(Ok(out)) => {
                let mut added: Vec<String> = Vec::new();
                added.push(concat2("$ ", self.command_input.as_str()));
                let chars = chars_of(out.as_str());
                let ls = split_lines(chars.as_slice());
                let ghost start = string_views(added@);
                assert(start =~= seq!["$ "@ + self.command_input@]);
                let mut i: usize = 0;
                while i < ls.len()
                    invariant
                        i <= ls@.len(),
                        views(ls@) == lines(out@),
                        string_views(added@) == start + views(ls@).take(i as int),
                    decreases ls@.len() - i,
                {
                    let ghost prev = string_views(added@);
                    let line = string_from_chars(ls[i].as_slice());
                    added.push(line);
                    assert(string_views(added@) =~= prev.push(ls@[i as int]@));
                    assert(views(ls@).take(i + 1) =~= views(ls@).take(i as int).push(
                        ls@[i as int]@,
                    ));
                    i += 1;
                }
                assert(views(ls@).take(ls@.len() as int) =~= views(ls@));
                let ghost before = string_views(self.command_output@);
                let ghost extra = string_views(added@);
                self.command_output.append(&mut added);
                assert(string_views(self.command_output@) =~= before + extra);
                self.status_message = owned("Command executed successfully");
                self.command_input = String::new();
                assert(self@ =~= (AppView {
                    command_input: seq![],
                    command_output: old(self)@.command_output + command_report(
                        old(self)@.command_input,
                        out@,
                    ),
                    status: "Command executed successfully"@,
                    ..old(self)@
                }));
            },
            Some(Err(e)) => {
                let m = e.message();
                let t = concat2("Error: ", m.as_str());
                proof {
                    reveal_strlit("Error: ");
                }
                assert(t@.skip(7) =~= m@);
                assert(t@.take(7) =~= "Error: "@);
                let ghost before = string_views(self.command_output@);
                self.command_output.push(t.clone());
                assert(string_views(self.command_output@) =~= before.push(t@));
                self.status_message = t;
                self.command_input = String::new();
            },
        }
    }
}


/// `n / d` rounded to the nearest integer, a tie going to the even one.
pub open spec fn half_even_div(n: nat, d: nat) -> nat {
    let q = n / d;
    let r = n % d;
    if 2 * r > d || (2 * r == d && q % 2 == 1) {
        q + 1
    } else {
        q
    }
}

/// The power of two that the last significant bit of `b` stands for once
/// `b` is held in a binary64 float, whose significand has 53 bits.
pub open spec fn f64_unit(b: nat) -> nat
    decreases b,
{
    if b < 0x20_0000_0000_0000 {
        1
    } else {
        2 * f64_unit(b / 2)
    }
}

/// The value of `b as f64`: `b` rounded to 53 significant bits, a tie
/// going to the even significand.
pub open spec fn f64_value(b: nat) -> nat {
    half_even_div(b, f64_unit(b)) * f64_unit(b)
}

/// The tenths in `b as f64 / 2^k` printed with one decimal (`{:.1}`): the
/// exact quotient rounded to tenths, a tie going to the even one.
pub open spec fn tenths(b: nat, k: nat) -> nat {
    half_even_div(f64_value(b) * 10, vstd::arithmetic::power2::pow2(k))
}

/// A number of tenths with one decimal: `12.3`.
pub open spec fn one_decimal(t: nat) -> Seq<char> {
    decimal(t / 10) + "."@ + seq![crate::text::digit_char(t % 10)]
}

/// A byte count in the largest of GB, MB and KB (binary units) that is at
/// most the count, with one decimal; below 1024, in whole bytes.
pub open spec fn bytes_text(b: nat) -> Seq<char> {
    if b >= 1073741824 {
        one_decimal(tenths(b, 30)) + " GB"@
    } else if b >= 1048576 {
        one_decimal(tenths(b, 20)) + " MB"@
    } else if b >= 1024 {
        one_decimal(tenths(b, 10)) + " KB"@
    } else {
        decimal(b) + " B"@
    }
}

fn half_even_div_exec(n: u128, d: u128) -> (r: u128)
    requires
        0 < d <= 0x1_0000_0000_0000_0000,
    ensures
        r == half_even_div(n as nat, d as nat),
        r <= n / d + 1,
{
    let q: u128 = n / d;
    let rem: u128 = n % d;
    proof {
        vstd::arithmetic::div_mod::lemma_fundamental_div_mod(n as int, d as int);
        vstd::arithmetic::div_mod::lemma_mod_bound(n as int, d as int);
        vstd::arithmetic::div_mod::lemma_div_pos_is_pos(n as int, d as int);
        assert(q <= n) by (nonlinear_arith)
            requires
                n == d * q + rem,
                0 <= rem,
                0 < d,
                0 <= q,
        ;
    }
    if 2 * rem > d || (2 * rem == d && q % 2 == 1) {
        assert(q < 0xffff_ffff_ffff_ffff_ffff_ffff_ffff_ffff) by (nonlinear_arith)
            requires
                n == d * q + rem,
                2 * rem >= d,
                0 < d,
                0 <= q,
                n <= 0xffff_ffff_ffff_ffff_ffff_ffff_ffff_ffff,
        ;
        q + 1
    } else {
        q
    }
}

proof fn lemma_unit_step(b: nat, u: nat)
    requires
        u > 0,
        b / u >= 0x20_0000_0000_0000,
    ensures
        f64_unit(b / u) == 2 * f64_unit(b / (u * 2)),
{
    vstd::arithmetic::div_mod::lemma_div_denominator(b as int, u as int, 2);
}

/// The value of `b as f64`, exactly.
fn f64_value_exec(b: u64) -> (r: u128)
    ensures
        r == f64_value(b as nat),
        r <= 0x1_0000_0000_0000_1000,
{
    let mut u: u128 = 1;
    let bb: u128 = b as u128;
    assert(bb as nat / 1 == bb as nat);
    while bb / u >= 0x20_0000_0000_0000
        invariant
            0 < u <= 4096,
            f64_unit(b as nat) == u * f64_unit(bb as nat / u as nat),
            bb == b,
        decreases 0x1_0000_0000_0000_0000 - u,
    {
        proof {
            lemma_unit_step(bb as nat, u as nat);
            vstd::arithmetic::div_mod::lemma_fundamental_div_mod(bb as int, u as int);
            vstd::arithmetic::div_mod::lemma_mod_bound(bb as int, u as int);
            assert(u < 2048) by (nonlinear_arith)
                requires
                    bb == u * (bb / u) + bb % u,
                    bb / u >= 0x20_0000_0000_0000,
                    bb % u >= 0,
                    bb < 0x1_0000_0000_0000_0000,
                    u > 0,
            ;
            assert(u * (2 * f64_unit(bb as nat / (u as nat * 2))) == (u * 2) * f64_unit(
                bb as nat / (u as nat * 2),
            )) by (nonlinear_arith);
        }
        u = u * 2;
    }
    assert(f64_unit(bb as nat / u as nat) == 1);
    assert(f64_unit(b as nat) == u) by (nonlinear_arith)
        requires
            f64_unit(b as nat) == u * f64_unit(bb as nat / u as nat),
            f64_unit(bb as nat / u as nat) == 1,
    ;
    let q: u128 = half_even_div_exec(bb, u);
    proof {
        vstd::arithmetic::div_mod::lemma_fundamental_div_mod(bb as int, u as int);
        vstd::arithmetic::div_mod::lemma_mod_bound(bb as int, u as int);
        let qq = bb as nat / u as nat;
        assert(q * u <= bb + u) by (nonlinear_arith)
            requires
                bb == u * qq + bb % u,
                q <= qq + 1,
                0 <= bb % u < u,
                u > 0,
        ;
        assert(q * u <= 0x1_0000_0000_0000_1000) by (nonlinear_arith)
            requires
                q * u <= bb + u,
                bb < 0x1_0000_0000_0000_0000,
                u <= 4096,
                u > 0,
        ;
    }
    q * u
}

/// A byte count in GB, MB or KB with one decimal, or in bytes below 1024,
/// as `format!("{:.1} GB", bytes as f64 / 1073741824.0)` and its siblings
/// write it.
pub fn format_bytes(bytes: u64) -> (r: String)
    ensures
        r@ == bytes_text(bytes as nat),
{
    if bytes < 1024 {
        let mut r = decimal_string(bytes);
        r.append(" B");
        return r;
    }
    let (k, unit, suffix): (u32, u128, &str) = if bytes >= 1073741824 {
        (30, 1073741824, " GB")
    } else if bytes >= 1048576 {
        (20, 1048576, " MB")
    } else {
        (10, 1024, " KB")
    };
    proof {
        vstd::arithmetic::power2::lemma2_to64();
    }
    assert(unit == vstd::arithmetic::power2::pow2(k as nat));
    let f: u128 = f64_value_exec(bytes);
    let t: u128 = half_even_div_exec(f * 10, unit);
    proof {
        vstd::arithmetic::div_mod::lemma_div_is_ordered_by_denominator(
            (f * 10) as int,
            1024,
            unit as int,
        );
        vstd::arithmetic::div_mod::lemma_div_is_ordered(
            (f * 10) as int,
            0xa_0000_0000_0000_a000,
            1024,
        );
    }
    let mut r = decimal_string((t / 10) as u64);
    r.append(".");
    push_char(&mut r, crate::text::digit_to_char((t % 10) as u64));
    r.append(suffix);
    r
}


/// Each tab stands at its own position in the order of tabs, and the
/// position of each entry of that order is its index: `Tab::all` and
/// `Tab::index` agree.
pub proof fn law_tab_index_matches_order(t: Tab, i: int)
    ensures
        tab_index(t) < tab_count(),
        tab_order()[tab_index(t) as int] == t,
        0 <= i < tab_count() ==> tab_index(tab_order()[i]) == i,
{
}

/// Moving to the next tab and then to the previous one (or the other way
/// round) comes back to the tab one started on.
pub proof fn law_next_prev_tab_inverse(t: Tab)
    ensures
        tab_before(tab_after(t)) == t,
        tab_after(tab_before(t)) == t,
{
}

/// Moving to the next tab seven times comes back to the tab one started on.
pub proof fn law_next_tab_cycles(t: Tab)
    ensures
        tab_after(tab_after(tab_after(tab_after(tab_after(tab_after(tab_after(t))))))) == t,
{
}

/// In a non-empty list, moving the selection down or up keeps it in the
/// list (up from a selection in the list), and moving down then up comes
/// back to the selection.
pub proof fn law_selection_in_range(sel: usize, count: usize)
    requires
        count > 0,
    ensures
        select_next(sel, count) < count,
        sel < count ==> select_prev(sel, count) < count,
        sel < count ==> select_prev(select_next(sel, count), count) == sel,
        sel < count ==> select_next(select_prev(sel, count), count) == sel,
{
    if sel < count {
        if sel + 1 < count {
            vstd::arithmetic::div_mod::lemma_small_mod((sel + 1) as nat, count as nat);
        } else {
            vstd::arithmetic::div_mod::lemma_mod_self_0(count as int);
        }
        if sel > 0 {
            vstd::arithmetic::div_mod::lemma_small_mod(sel as nat, count as nat);
        } else {
            vstd::arithmetic::div_mod::lemma_mod_self_0(count as int);
        }
    }
    vstd::arithmetic::div_mod::lemma_mod_bound((sel + 1) as int, count as int);
}

/// `Ctrl+C` stops the interface whatever state it is in; `Esc` always
/// leaves input mode.
pub proof fn law_ctrl_c_quits_and_esc_leaves_input(v: AppView)
    ensures
        !key_press(v, Key::Char('c'), true).0.running,
        v.input_mode ==> !key_press(v, Key::Esc, false).0.input_mode,
{
}

/// Only `d` on the sessions tab changes the saved sessions, and only keys
/// in input mode change the command line and the form.
pub proof fn law_keys_touch_their_own_state(v: AppView, k: Key, ctrl: bool)
    ensures
        !(k == Key::Char('d') && v.active_tab == Tab::Sessions) ==> normal_key(v, k).0.sessions
            == v.sessions,
        normal_key(v, k).0.command_input == v.command_input,
        normal_key(v, k).0.form == v.form,
        normal_key(v, k).0.command_output == v.command_output,
        input_key(v, k).0.sessions == v.sessions,
        key_press(v, k, ctrl).0.sessions_file == v.sessions_file,
{
}


/// A key asks for the session list to be saved exactly when it deletes the
/// selected session, and the selection then stays in the shortened list
/// (or the list is empty).
pub proof fn law_delete_saves_and_keeps_selection(v: AppView, k: Key)
    ensures
        (normal_key(v, k).1 == Effect::SaveSessions) == (k == Key::Char('d') && v.active_tab
            == Tab::Sessions && v.session_selected < v.sessions.len()),
        normal_key(v, k).1 == Effect::SaveSessions ==> normal_key(v, k).0.sessions.len()
            == v.sessions.len() - 1 && (normal_key(v, k).0.session_selected < normal_key(
            v,
            k,
        ).0.sessions.len() || normal_key(v, k).0.sessions.len() == 0),
{
    if k == Key::Char('d') && v.active_tab == Tab::Sessions && v.session_selected < v.sessions.len() {
        let id = v.sessions[v.session_selected as int].id@;
        let i = first_with_id(v.sessions, id);
        crate::session::lemma_first_with_id_exists(v.sessions, id, v.session_selected as int);
        assert(is_first_with_id(v.sessions, id, i));
    }
}


/// Byte counts below 2^53 are held exactly as floats, so the shown tenths
/// are the count's own tenths of the unit, rounded half to even.
pub proof fn law_small_counts_are_exact(b: nat, k: nat)
    requires
        b < 0x20_0000_0000_0000,
    ensures
        f64_value(b) == b,
        tenths(b, k) == half_even_div(b * 10, vstd::arithmetic::power2::pow2(k)),
{
    assert(f64_unit(b) == 1);
    assert(b / 1 == b);
    assert(b % 1 == 0);
}

/// In normal mode with the help hidden, `Tab`, `Right` and `l` move to the
/// next tab and `BackTab`, `Left` and `h` to the previous one, counting
/// round the seven tabs; `1` to `7` jump to that tab; with the help shown
/// the moving keys leave the tab alone. `Left` undoes `Right` and `Right`
/// undoes `Left`. A key press outside input mode, other than `Ctrl+C`, acts
/// as in normal mode.
pub proof fn law_tab_keys_move_one_tab(v: AppView, k: Key, ctrl: bool)
    ensures
        !v.show_help && (k == Key::Tab || k == Key::Right || k == Key::Char('l'))
            ==> normal_key(v, k).0.active_tab == tab_order()[((tab_index(v.active_tab) + 1) % 7) as int],
        !v.show_help && (k == Key::BackTab || k == Key::Left || k == Key::Char('h'))
            ==> normal_key(v, k).0.active_tab == tab_order()[((tab_index(v.active_tab) + 6) % 7) as int],
        v.show_help && (k == Key::Tab || k == Key::Right || k == Key::Char('l') || k == Key::BackTab
            || k == Key::Left || k == Key::Char('h')) ==> normal_key(v, k).0.active_tab
            == v.active_tab,
        forall|d: char|
            '1' <= d <= '7' ==> #[trigger] normal_key(v, Key::Char(d)).0.active_tab == tab_order()[(d as u32) - ('1' as u32)],
        !v.show_help ==> normal_key(normal_key(v, Key::Right).0, Key::Left).0.active_tab == v.active_tab,
        !v.show_help ==> normal_key(normal_key(v, Key::Left).0, Key::Right).0.active_tab == v.active_tab,
        !v.input_mode && !(ctrl && k == Key::Char('c')) ==> key_press(v, k, ctrl) == normal_key(v, k),
{
    assert forall|d: char|
        '1' <= d <= '7' implies #[trigger] normal_key(v, Key::Char(d)).0.active_tab == tab_order()[(d as u32) - ('1' as u32)] by {
        if d == '1' {
        } else if d == '2' {
        } else if d == '3' {
        } else if d == '4' {
        } else if d == '5' {
        } else if d == '6' {
        } else {
            assert(d == '7');
        }
    }
}

/// In input mode on the SSH tab, `Tab` focuses the next of the four fields
/// (host, port, user name, password), the password followed by the host,
/// and `BackTab` the previous one; each undoes the other. Neither changes
/// what the fields hold, nor leaves input mode.
pub proof fn law_form_tab_cycles_fields(v: AppView)
    requires
        v.active_tab == Tab::Ssh,
        v.form.focused_field < 4,
    ensures
        input_key(v, Key::Tab).0.form.focused_field == (v.form.focused_field + 1) % 4,
        input_key(v, Key::BackTab).0.form.focused_field == (v.form.focused_field + 3) % 4,
        input_key(input_key(v, Key::Tab).0, Key::BackTab).0.form.focused_field == v.form.focused_field,
        input_key(input_key(v, Key::BackTab).0, Key::Tab).0.form.focused_field == v.form.focused_field,
        input_key(v, Key::Tab).0.form.host == v.form.host,
        input_key(v, Key::Tab).0.form.port == v.form.port,
        input_key(v, Key::Tab).0.form.username == v.form.username,
        input_key(v, Key::Tab).0.form.password == v.form.password,
        input_key(v, Key::Tab).0.input_mode == v.input_mode,
        input_key(v, Key::BackTab).0.input_mode == v.input_mode,
{
}

} // verus!
