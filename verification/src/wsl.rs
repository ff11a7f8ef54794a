//! WSL distributions: what `wsl --list --verbose` reports, and the
//! commands that manage distributions.

use vstd::prelude::*;
use crate::error::{LagideError, Result};
use crate::text::{
    chars_eq_str, chars_of, concat2, decimal, is_ws, trim_end, trim_start, from_utf8_lossy, utf8_lossy, lines, lines_from, owned, parse_u8, parse_u8_chars, split_lines, split_words,
    string_from_chars, strip_stars, strip_stars_chars, trim, trim_chars, views, words,
};

verus! {

/// The state of a WSL distribution.
#[derive(Debug, Clone, Copy, PartialEq, Eq, Structural)]
pub enum WslState {
    Running,
    Stopped,
    Installing,
    Unknown,
}

/// The name under which a state is shown.
pub open spec fn state_label(s: WslState) -> Seq<char> {
    match s {
        WslState::Running => "Running"@,
        WslState::Stopped => "Stopped"@,
        WslState::Installing => "Installing"@,
        WslState::Unknown => "Unknown"@,
    }
}

/// The state that a word of `wsl --list --verbose` names.
pub open spec fn state_of_word(w: Seq<char>) -> WslState {
    if w == "Running"@ {
        WslState::Running
    } else if w == "Stopped"@ {
        WslState::Stopped
    } else if w == "Installing"@ {
        WslState::Installing
    } else {
        WslState::Unknown
    }
}

impl WslState {
    /// The name under which the state is shown.
    pub fn to_string(&self) -> (r: String)
        ensures
            r@ == state_label(*self),
    {
        match self {
            WslState::Running => owned("Running"),
            WslState::Stopped => owned("Stopped"),
            WslState::Installing => owned("Installing"),
            WslState::Unknown => owned("Unknown"),
        }
    }
}

/// The state that the word `w` names.
pub fn state_from_word(w: &[char]) -> (r: WslState)
    ensures
        r == state_of_word(w@),
{
    if chars_eq_str(w, "Running") {
        WslState::Running
    } else if chars_eq_str(w, "Stopped") {
        WslState::Stopped
    } else if chars_eq_str(w, "Installing") {
        WslState::Installing
    } else {
        WslState::Unknown
    }
}

/// An installed WSL distribution.
#[derive(Debug, Clone)]
pub struct WslDistribution {
    pub name: String,
    pub state: WslState,
    pub version: u8,
    pub is_default: bool,
}

/// The model of a distribution: its name as characters.
pub ghost struct DistroView {
    pub name: Seq<char>,
    pub state: WslState,
    pub version: u8,
    pub is_default: bool,
}

impl View for WslDistribution {
    type V = DistroView;

    open spec fn view(&self) -> DistroView {
        DistroView {
            name: self.name@,
            state: self.state,
            version: self.version,
            is_default: self.is_default,
        }
    }
}

/// The models of a sequence of distributions.
pub open spec fn distro_views(v: Seq<WslDistribution>) -> Seq<DistroView> {
    v.map_values(|d: WslDistribution| d@)
}

/// The distribution that one line of `wsl --list --verbose` describes, if
/// any: after trimming, a leading `*` marks the default distribution; the
/// first three words are the name, the state and the WSL version (2 where the
/// version does not parse).
pub open spec fn parse_line(line: Seq<char>) -> Option<DistroView> {
    let t = trim(line);
    if t.len() == 0 {
        None
    } else {
        let parts = words(trim(strip_stars(t)));
        if parts.len() >= 3 {
            Some(
                DistroView {
                    name: parts[0],
                    state: state_of_word(parts[1]),
                    version: match parse_u8(parts[2]) {
                        Some(v) => v,
                        None => 2,
                    },
                    is_default: t[0] == '*',
                },
            )
        } else {
            None
        }
    }
}

/// The distributions that the lines `ls` describe, in order.
pub open spec fn parsed_lines(ls: Seq<Seq<char>>) -> Seq<DistroView>
    decreases ls.len(),
{
    if ls.len() == 0 {
        seq![]
    } else {
        let rest = parsed_lines(ls.drop_last());
        match parse_line(ls.last()) {
            Some(d) => rest.push(d),
            None => rest,
        }
    }
}

/// The distributions that the output of `wsl --list --verbose` lists: those
/// described by the lines after the header line.
pub open spec fn parse_listing(out: Seq<char>) -> Seq<DistroView> {
    let ls = lines(out);
    if ls.len() == 0 {
        seq![]
    } else {
        parsed_lines(ls.drop_first())
    }
}

/// Parses one line of `wsl --list --verbose`.
fn parse_distribution_line(line: &[char]) -> (r: Option<WslDistribution>)
    ensures
        match r {
            Some(d) => parse_line(line@) == Some(d@),
            None => parse_line(line@) is None,
        },
{
    let t = trim_chars(line);
    if t.len() == 0 {
        return None;
    }
    let is_default = t[0] == '*';
    let stripped = strip_stars_chars(t.as_slice());
    let inner = trim_chars(stripped.as_slice());
    let parts = split_words(inner.as_slice());
    if parts.len() >= 3 {
        let name = string_from_chars(parts[0].as_slice());
        let state = state_from_word(parts[1].as_slice());
        let version = match parse_u8_chars(parts[2].as_slice()) {
            Some(v) => v,
            None => 2,
        };
        let d = WslDistribution { name, state, version, is_default };
        assert(views(parts@)[0] == parts@[0]@);
        assert(views(parts@)[1] == parts@[1]@);
        assert(views(parts@)[2] == parts@[2]@);
        Some(d)
    } else {
        None
    }
}

/// The distributions shown where WSL is not available.
pub open spec fn demo_views() -> Seq<DistroView> {
    seq![
        DistroView {
            name: "Ubuntu-22.04"@,
            state: WslState::Running,
            version: 2,
            is_default: true,
        },
        DistroView { name: "Debian"@, state: WslState::Stopped, version: 2, is_default: false },
        DistroView {
            name: "kali-linux"@,
            state: WslState::Stopped,
            version: 2,
            is_default: false,
        },
    ]
}

/// What a finished child process reported.
#[derive(Debug, Clone)]
pub struct ProcessOutput {
    pub success: bool,
    pub stdout: Vec<u8>,
    pub stderr: Vec<u8>,
}

/// A run of a command: its output, or the text of the error that kept it
/// from starting.
pub type CommandRun = core::result::Result<ProcessOutput, String>;

/// The `wsl` invocations that manage distributions.
#[derive(Debug, Clone)]
pub enum WslCommand {
    List,
    Exec { distro: String, command: String },
    Start { distro: String },
    Stop { distro: String },
    Shutdown,
    SetDefault { distro: String },
    Export { distro: String, path: String },
    Import { name: String, install_path: String, tar_path: String },
}

/// The command line arguments of an invocation of `wsl`.
pub open spec fn command_args(c: WslCommand) -> Seq<Seq<char>> {
    match c {
        WslCommand::List => seq!["--list"@, "--verbose"@],
        WslCommand::Exec { distro, command } => seq![
            "-d"@,
            distro@,
            "--"@,
            "bash"@,
            "-c"@,
            command@,
        ],
        WslCommand::Start { distro } => seq!["-d"@, distro@, "--"@, "echo"@, "started"@],
        WslCommand::Stop { distro } => seq!["--terminate"@, distro@],
        WslCommand::Shutdown => seq!["--shutdown"@],
        WslCommand::SetDefault { distro } => seq!["--set-default"@, distro@],
        WslCommand::Export { distro, path } => seq!["--export"@, distro@, path@],
        WslCommand::Import { name, install_path, tar_path } => seq![
            "--import"@,
            name@,
            install_path@,
            tar_path@,
        ],
    }
}

/// The character sequences held by a sequence of strings.
pub open spec fn string_views(v: Seq<String>) -> Seq<Seq<char>> {
    v.map_values(|x: String| x@)
}

fn push_owned(v: &mut Vec<String>, s: &str)
    ensures
        string_views(final(v)@) == string_views(old(v)@).push(s@),
{
    let ghost before = string_views(v@);
    v.push(owned(s));
    assert(string_views(v@) =~= before.push(s@));
}

impl WslCommand {
    /// The arguments to hand to `wsl` for this invocation.
    pub fn args(&self) -> (r: Vec<String>)
        ensures
            string_views(r@) == command_args(*self),
    {
        let mut r: Vec<String> = Vec::new();
        match self {
            WslCommand::List => {
                push_owned(&mut r, "--list");
                push_owned(&mut r, "--verbose");
            },
            WslCommand::Exec { distro, command } => {
                push_owned(&mut r, "-d");
                push_owned(&mut r, distro.as_str());
                push_owned(&mut r, "--");
                push_owned(&mut r, "bash");
                push_owned(&mut r, "-c");
                push_owned(&mut r, command.as_str());
            },
            WslCommand::Start { distro } => {
                push_owned(&mut r, "-d");
                push_owned(&mut r, distro.as_str());
                push_owned(&mut r, "--");
                push_owned(&mut r, "echo");
                push_owned(&mut r, "started");
            },
            WslCommand::Stop { distro } => {
                push_owned(&mut r, "--terminate");
                push_owned(&mut r, distro.as_str());
            },
            WslCommand::Shutdown => {
                push_owned(&mut r, "--shutdown");
            },
            WslCommand::SetDefault { distro } => {
                push_owned(&mut r, "--set-default");
                push_owned(&mut r, distro.as_str());
            },
            WslCommand::Export { distro, path } => {
                push_owned(&mut r, "--export");
                push_owned(&mut r, distro.as_str());
                push_owned(&mut r, path.as_str());
            },
            WslCommand::Import { name, install_path, tar_path } => {
                push_owned(&mut r, "--import");
                push_owned(&mut r, name.as_str());
                push_owned(&mut r, install_path.as_str());
                push_owned(&mut r, tar_path.as_str());
            },
        }
        assert(string_views(r@) =~= command_args(*self));
        r
    }
}

/// Whether `r` is the WSL error whose text is `m`.
pub open spec fn is_wsl_error<T>(r: Result<T>, m: Seq<char>) -> bool {
    r matches Err(LagideError::Wsl(t)) && t@ == m
}

/// The outcome of a `wsl` run that reports only success or failure: the
/// error that kept it from starting, after `launch`; `failure` where it
/// failed; nothing where it succeeded.
pub open spec fn status_outcome(run: CommandRun, launch: Seq<char>, failure: Seq<char>, r: Result<()>) -> bool {
    match run {
        Err(e) => is_wsl_error(r, launch + e@),
        Ok(o) => if o.success {
            r is Ok
        } else {
            is_wsl_error(r, failure)
        },
    }
}

fn status_result(run: CommandRun, launch: &str, failure: &str) -> (r: Result<()>)
    ensures
        status_outcome(run, launch@, failure@, r),
{
    match run {
        Err(e) => Err(LagideError::Wsl(concat2(launch, e.as_str()))),
        Ok(o) => if o.success {
            Ok(())
        } else {
            Err(LagideError::Wsl(owned(failure)))
        },
    }
}

/// Runs the `wsl` command line tool.
pub struct WslManager;

impl WslManager {
    /// The manager; it holds nothing.
    pub fn new() -> (r: Self) {
        WslManager
    }

    /// The distributions that a run of `wsl --list --verbose` reports; where
    /// `wsl` ran but failed (no WSL on this machine), the demonstration list.
    pub fn list_distributions(&self, run: CommandRun) -> (r: Result<Vec<WslDistribution>>)
        ensures
            match run {
                Err(e) => is_wsl_error(r, "Failed to run wsl command: "@ + e@),
                Ok(o) => if o.success {
                    r matches Ok(v) && distro_views(v@) == parse_listing(utf8_lossy(o.stdout@))
                } else {
                    r matches Ok(v) && distro_views(v@) == demo_views()
                },
            },
    {
        match run {
            Err(e) => Err(LagideError::Wsl(concat2("Failed to run wsl command: ", e.as_str()))),
            Ok(o) => {
                if !o.success {
                    return Ok(self.demo_distributions());
                }
                let text = from_utf8_lossy(o.stdout.as_slice());
                self.parse_distributions(text.as_str())
            },
        }
    }

    /// The output of a command run in a distribution (`wsl -d <distro> --
    /// bash -c <command>`), or its error output where it failed.
    pub fn exec_command(&self, run: CommandRun) -> (r: Result<String>)
        ensures
            match run {
                Err(e) => is_wsl_error(r, "Failed to execute in WSL: "@ + e@),
                Ok(o) => if o.success {
                    r matches Ok(t) && t@ == utf8_lossy(o.stdout@)
                } else {
                    is_wsl_error(r, "Command failed: "@ + utf8_lossy(o.stderr@))
                },
            },
    {
        match run {
            Err(e) => Err(LagideError::Wsl(concat2("Failed to execute in WSL: ", e.as_str()))),
            Ok(o) => {
                if o.success {
                    Ok(from_utf8_lossy(o.stdout.as_slice()))
                } else {
                    let err = from_utf8_lossy(o.stderr.as_slice());
                    Err(LagideError::Wsl(concat2("Command failed: ", err.as_str())))
                }
            },
        }
    }

    /// The outcome of starting a distribution.
    pub fn start_distribution(&self, run: CommandRun) -> (r: Result<()>)
        ensures
            status_outcome(
                run,
                "Failed to start distribution: "@,
                "Failed to start distribution"@,
                r,
            ),
    {
        status_result(run, "Failed to start distribution: ", "Failed to start distribution")
    }

    /// The outcome of terminating a distribution.
    pub fn stop_distribution(&self, run: CommandRun) -> (r: Result<()>)
        ensures
            status_outcome(
                run,
                "Failed to stop distribution: "@,
                "Failed to stop distribution"@,
                r,
            ),
    {
        status_result(run, "Failed to stop distribution: ", "Failed to stop distribution")
    }

    /// The outcome of shutting down all WSL instances.
    pub fn shutdown_all(&self, run: CommandRun) -> (r: Result<()>)
        ensures
            status_outcome(
                run,
                "Failed to shutdown WSL: "@,
                "Failed to shutdown all WSL instances"@,
                r,
            ),
    {
        status_result(run, "Failed to shutdown WSL: ", "Failed to shutdown all WSL instances")
    }

    /// The outcome of setting the default distribution.
    pub fn set_default(&self, run: CommandRun) -> (r: Result<()>)
        ensures
            status_outcome(
                run,
                "Failed to set default: "@,
                "Failed to set default distribution"@,
                r,
            ),
    {
        status_result(run, "Failed to set default: ", "Failed to set default distribution")
    }

    /// The outcome of exporting a distribution to a tar file.
    pub fn export_distribution(&self, run: CommandRun) -> (r: Result<()>)
        ensures
            status_outcome(run, "Failed to export: "@, "Failed to export distribution"@, r),
    {
        status_result(run, "Failed to export: ", "Failed to export distribution")
    }

    /// The outcome of importing a distribution from a tar file.
    pub fn import_distribution(&self, run: CommandRun) -> (r: Result<()>)
        ensures
            status_outcome(run, "Failed to import: "@, "Failed to import distribution"@, r),
    {
        status_result(run, "Failed to import: ", "Failed to import distribution")
    }

    /// The distributions shown where WSL is not available.
    pub fn demo_distributions(&self) -> (r: Vec<WslDistribution>)
        ensures
            distro_views(r@) == demo_views(),
    {
        let mut r: Vec<WslDistribution> = Vec::new();
        r.push(
            WslDistribution {
                name: owned("Ubuntu-22.04"),
                state: WslState::Running,
                version: 2,
                is_default: true,
            },
        );
        r.push(
            WslDistribution {
                name: owned("Debian"),
                state: WslState::Stopped,
                version: 2,
                is_default: false,
            },
        );
        r.push(
            WslDistribution {
                name: owned("kali-linux"),
                state: WslState::Stopped,
                version: 2,
                is_default: false,
            },
        );
        assert(distro_views(r@) =~= demo_views());
        r
    }

    /// The distributions that the output of `wsl --list --verbose` lists.
    pub fn parse_distributions(&self, output: &str) -> (r: Result<Vec<WslDistribution>>)
        ensures
            r matches Ok(v) && distro_views(v@) == parse_listing(output@),
    {
        let chars = chars_of(output);
        let ls = split_lines(chars.as_slice());
        let mut out: Vec<WslDistribution> = Vec::new();
        if ls.len() == 0 {
            assert(distro_views(out@) =~= Seq::<DistroView>::empty());
            return Ok(out);
        }
        let ghost all = views(ls@);
        let mut i: usize = 1;
        assert(all.subrange(1, 1) =~= Seq::<Seq<char>>::empty());
        assert(distro_views(out@) =~= Seq::<DistroView>::empty());
        while i < ls.len()
            invariant
                1 <= i <= ls@.len(),
                all == views(ls@),
                all == lines(output@),
                distro_views(out@) == parsed_lines(all.subrange(1, i as int)),
            decreases ls@.len() - i,
        {
            let ghost before = distro_views(out@);
            assert(all.subrange(1, i + 1).drop_last() =~= all.subrange(1, i as int));
            assert(all.subrange(1, i + 1).last() == ls@[i as int]@);
            match parse_distribution_line(ls[i].as_slice()) {
                Some(d) => {
                    out.push(d);
                    assert(distro_views(out@) =~= before.push(d@));
                },
                None => {},
            }
            i += 1;
        }
        assert(all.subrange(1, ls@.len() as int) =~= all.drop_first());
        Ok(out)
    }
}


/// The name under which each state is shown reads back as that state.
pub proof fn law_state_label_round_trip(s: WslState)
    ensures
        state_of_word(state_label(s)) == s,
{
    reveal_strlit("Running");
    reveal_strlit("Stopped");
    reveal_strlit("Installing");
    reveal_strlit("Unknown");
    assert("Running"@[0] != "Stopped"@[0]);
    assert("Running"@[0] != "Installing"@[0]);
    assert("Running"@[0] != "Unknown"@[0]);
    assert("Stopped"@[0] != "Installing"@[0]);
    assert("Stopped"@[0] != "Unknown"@[0]);
    assert("Installing"@[0] != "Unknown"@[0]);
}

/// The list shown without WSL has exactly one default distribution, the
/// first, and every entry is WSL 2.
pub proof fn law_demo_list_has_one_default()
    ensures
        demo_views().len() == 3,
        demo_views()[0].is_default,
        forall|i: int| 1 <= i < 3 ==> !(#[trigger] demo_views()[i]).is_default,
        forall|i: int| 0 <= i < 3 ==> (#[trigger] demo_views()[i]).version == 2,
{
}

/// Lines that are empty or hold only whitespace describe no distribution,
/// and neither do lines with fewer than three words.
pub proof fn law_short_lines_list_nothing(line: Seq<char>)
    requires
        words(trim(strip_stars(trim(line)))).len() < 3,
    ensures
        parse_line(line) is None,
{
}

/// A listing is read line by line: the entries that the lines `ls` followed
/// by the lines `more` describe are those of `ls` followed by those of
/// `more`.
pub proof fn law_listing_extends_by_lines(ls: Seq<Seq<char>>, more: Seq<Seq<char>>)
    ensures
        parsed_lines(ls + more) == parsed_lines(ls) + parsed_lines(more),
    decreases more.len(),
{
    if more.len() == 0 {
        assert(ls + more =~= ls);
        assert(parsed_lines(ls) + parsed_lines(more) =~= parsed_lines(ls));
    } else {
        law_listing_extends_by_lines(ls, more.drop_last());
        assert((ls + more).drop_last() =~= ls + more.drop_last());
        assert((ls + more).last() == more.last());
        match parse_line(more.last()) {
            Some(d) => {
                assert(parsed_lines(ls) + parsed_lines(more) =~= (parsed_lines(ls)
                    + parsed_lines(more.drop_last())).push(d));
            },
            None => {},
        }
    }
}


/// A line is read the same with or without the whitespace around it.
pub proof fn law_line_ignores_surrounding_whitespace(line: Seq<char>)
    ensures
        parse_line(trim(line)) == parse_line(line),
{
    crate::text::law_trim_idempotent(line);
}


/// The line that `wsl --list --verbose` prints for a distribution: a `*`
/// before the default one, the name, the state and the version.
pub open spec fn listing_line(d: DistroView) -> Seq<char> {
    (if d.is_default {
        "* "@
    } else {
        "  "@
    }) + d.name + " "@ + state_label(d.state) + " "@ + decimal(d.version as nat)
}

proof fn lemma_label_is_word(s: WslState)
    ensures
        state_label(s).len() > 0,
        forall|i: int| 0 <= i < state_label(s).len() ==> !is_ws(#[trigger] state_label(s)[i]),
{
    reveal_strlit("Running");
    reveal_strlit("Stopped");
    reveal_strlit("Installing");
    reveal_strlit("Unknown");
}

/// A distribution whose name is one word, not starting with `*`, reads
/// back from the line that lists it.
pub proof fn law_listing_line_round_trip(d: DistroView)
    requires
        d.name.len() > 0,
        forall|i: int| 0 <= i < d.name.len() ==> !is_ws(#[trigger] d.name[i]),
        d.name[0] != '*',
    ensures
        parse_line(listing_line(d)) == Some(d),
{
    reveal_strlit("* ");
    reveal_strlit("  ");
    reveal_strlit(" ");
    let label = state_label(d.state);
    let digits = decimal(d.version as nat);
    lemma_label_is_word(d.state);
    crate::text::lemma_decimal_digits(d.version as nat);
    assert forall|i: int| 0 <= i < digits.len() implies !is_ws(#[trigger] digits[i]) by {
        assert(crate::text::is_digit(digits[i]));
    }
    let body = d.name + (seq![' '] + (label + (seq![' '] + digits)));
    assert(body =~= d.name + " "@ + label + " "@ + digits);
    assert(body[0] == d.name[0]);
    assert(body.last() == digits.last());
    crate::text::lemma_trim_of_trimmed(body);
    // words of the body: the name, the state, the version
    crate::text::lemma_words_join_word(d.name, seq![' '] + (label + (seq![' '] + digits)), seq![]);
    assert(Seq::<char>::empty() + d.name =~= d.name);
    crate::text::lemma_words_space_ends_word(label + (seq![' '] + digits), d.name);
    crate::text::lemma_words_join_word(label, seq![' '] + digits, seq![]);
    assert(Seq::<char>::empty() + label =~= label);
    crate::text::lemma_words_space_ends_word(digits, label);
    crate::text::lemma_words_join_word(digits, seq![], seq![]);
    assert(digits + Seq::<char>::empty() =~= digits);
    assert(Seq::<char>::empty() + digits =~= digits);
    assert(words(body) =~= seq![d.name, label, digits]);
    law_state_label_round_trip(d.state);
    crate::text::law_parse_decimal_round_trip(d.version);
    let line = listing_line(d);
    if d.is_default {
        let starred = seq!['*'] + (seq![' '] + body);
        assert(line =~= starred);
        assert(!is_ws(starred[0]));
        assert(starred.last() == body.last());
        crate::text::lemma_trim_of_trimmed(starred);
        assert(starred.drop_first() =~= seq![' '] + body);
        assert(strip_stars(starred) == strip_stars(seq![' '] + body));
        assert((seq![' '] + body)[0] == ' ');
        assert(strip_stars(seq![' '] + body) == seq![' '] + body);
        assert(trim_start(seq![' '] + body) == trim_start((seq![' '] + body).drop_first()));
        assert((seq![' '] + body).drop_first() =~= body);
        assert(trim(seq![' '] + body) == body);
    } else {
        let spaced = seq![' '] + (seq![' '] + body);
        assert(line =~= spaced);
        assert(spaced[0] == ' ');
        assert(spaced.drop_first() =~= seq![' '] + body);
        assert(trim_start(spaced) == trim_start(seq![' '] + body));
        assert((seq![' '] + body)[0] == ' ');
        assert((seq![' '] + body).drop_first() =~= body);
        assert(trim_start(seq![' '] + body) == trim_start(body));
        assert(trim_start(spaced) == trim_start(body));
        assert(trim(spaced) == body);
        assert(strip_stars(body) == body);
    }
}

/// The listing printed for one distribution, under a header line, reads back
/// as that one distribution, with or without a final line break.
pub proof fn law_listing_round_trip(header: Seq<char>, d: DistroView, final_break: bool)
    requires
        forall|i: int| 0 <= i < header.len() ==> #[trigger] header[i] != '\n',
        d.name.len() > 0,
        forall|i: int| 0 <= i < d.name.len() ==> !is_ws(#[trigger] d.name[i]),
        d.name[0] != '*',
    ensures
        parse_listing(
            header + "\n"@ + listing_line(d) + (if final_break {
                "\n"@
            } else {
                ""@
            }),
        ) == seq![d],
{
    reveal_strlit("\n");
    reveal_strlit("");
    reveal_strlit("* ");
    reveal_strlit("  ");
    reveal_strlit(" ");
    let line = listing_line(d);
    let end: Seq<char> = if final_break {
        "\n"@
    } else {
        ""@
    };
    let label = state_label(d.state);
    let digits = decimal(d.version as nat);
    lemma_label_is_word(d.state);
    crate::text::lemma_decimal_digits(d.version as nat);
    assert forall|i: int| 0 <= i < digits.len() implies #[trigger] digits[i] != '\n' by {
        assert(crate::text::is_digit(digits[i]));
    }
    let mark: Seq<char> = if d.is_default {
        "* "@
    } else {
        "  "@
    };
    assert(line =~= mark + d.name + seq![' '] + label + seq![' '] + digits);
    assert forall|i: int| 0 <= i < line.len() implies #[trigger] line[i] != '\n' by {
        let k = i - mark.len();
        if i < mark.len() {
        } else if k < d.name.len() {
            assert(line[i] == d.name[k]);
            assert(!is_ws(d.name[k]));
        } else if k == d.name.len() {
        } else if k < d.name.len() + 1 + label.len() {
            assert(line[i] == label[k - d.name.len() - 1]);
            assert(!is_ws(label[k - d.name.len() - 1]));
        } else if k == d.name.len() + 1 + label.len() {
        } else {
            assert(line[i] == digits[k - d.name.len() - 2 - label.len()]);
        }
    }
    let text = header + "\n"@ + line + end;
    assert(text =~= header + (seq!['\n'] + (line + end)));
    crate::text::lemma_lines_no_break(header, seq!['\n'] + (line + end), seq![]);
    assert(Seq::<char>::empty() + header =~= header);
    assert((seq!['\n'] + (line + end)).drop_first() =~= line + end);
    crate::text::lemma_lines_no_break(line, end, seq![]);
    assert(Seq::<char>::empty() + line =~= line);
    let ls = lines(text);
    if final_break {
        assert(end =~= seq!['\n']);
        assert(end.drop_first() =~= Seq::<char>::empty());
        assert(crate::text::lines_from(Seq::<char>::empty(), seq![]) =~= Seq::<Seq<char>>::empty());
        assert(line.last() == digits.last());
        assert(crate::text::strip_cr(line) == line);
        assert(lines_from(end, line) =~= seq![line]);
    } else {
        assert(lines_from(end, line) == seq![line]);
    }
    assert(ls =~= seq![crate::text::strip_cr(header), line]);
    assert(ls.drop_first() =~= seq![line]);
    assert(seq![line].drop_last() =~= Seq::<Seq<char>>::empty());
    assert(seq![line].last() == line);
    assert(parsed_lines(Seq::<Seq<char>>::empty()) =~= Seq::<DistroView>::empty());
    law_listing_line_round_trip(d);
    assert(parsed_lines(seq![line]) =~= seq![d]);
}

} // verus!
