//! The process inspector: how each effect and question is put to the
//! operating system, and how its answer is read.
//!
//! Nothing here runs a command. For every primitive this module gives the
//! command lines to run on the platform at hand, and reads what the command
//! printed; running them is the driver's part.

use vstd::prelude::*;
use vstd::string::StringExecFns;
use crate::decimal::{decimal, decimal_chars, push_decimal};
use crate::listing::{listed_pids, parse_pid_listing};
use crate::platform::{
    get_sidecar_exe_name, get_worker_name, sidecar_exe_name, worker_name, Platform,
};
use crate::process::{Effect, Query, QueryView, Reply};
use crate::text::{chars_of, contains_word, has_word, string_of, texts_of};

verus! {

/// A program and its arguments.
#[derive(Clone, Debug, PartialEq, Eq)]
pub struct CommandLine {
    pub program: String,
    pub args: Vec<String>,
}

/// The mathematical content of a [`CommandLine`].
pub struct CommandLineView {
    pub program: Seq<char>,
    pub args: Seq<Seq<char>>,
}

impl View for CommandLine {
    type V = CommandLineView;

    open spec fn view(&self) -> CommandLineView {
        CommandLineView {
            program: self.program@,
            args: texts_of(self.args@),
        }
    }
}

/// What a command left behind: whether it exited with success, and what it
/// printed.
#[derive(Clone, Debug, PartialEq, Eq)]
pub struct CommandOutput {
    pub success: bool,
    pub stdout: String,
}

/// The command line of `program` without arguments.
pub open spec fn command(program: Seq<char>) -> CommandLineView {
    CommandLineView { program, args: Seq::empty() }
}

impl CommandLineView {
    /// The command line with one more argument.
    pub open spec fn with(self, arg: Seq<char>) -> CommandLineView {
        CommandLineView { program: self.program, args: self.args.push(arg) }
    }
}

/// The contents of a list of command lines.
pub open spec fn lines_of(cmds: Seq<CommandLine>) -> Seq<CommandLineView> {
    Seq::new(cmds.len(), |i: int| cmds[i]@)
}

/// The signal number of the cooperative or of the unconditional
/// termination, as the Unix tools take it.
pub open spec fn unix_signal(forceful: bool) -> Seq<char> {
    if forceful {
        "-9"@
    } else {
        "-15"@
    }
}

/// The command lines that send a signal to the children of `pid` and then to
/// `pid` itself, on Unix.
pub open spec fn unix_tree_signal(pid: u32, forceful: bool) -> Seq<CommandLineView> {
    seq![
        command("pkill"@).with(unix_signal(forceful)).with("-P"@).with(decimal(pid as nat)),
        command("kill"@).with(unix_signal(forceful)).with(decimal(pid as nat)),
    ]
}

/// The command lines that perform `effect` on `platform`, in the order in
/// which they are run. Every one of them is run, whatever the one before it
/// reported. Waiting and the owned handle need no command.
///
/// On Windows a whole tree is terminated by one command; a forced kill adds
/// `/F` to it.
pub open spec fn commands_for(platform: Platform, effect: Effect) -> Seq<CommandLineView> {
    match effect {
        Effect::KillHandle => Seq::empty(),
        Effect::Sleep { .. } => Seq::empty(),
        Effect::SendGraceful { pid } => match platform {
            Platform::Unix => unix_tree_signal(pid, false),
            Platform::Windows => seq![
                command("taskkill"@).with("/PID"@).with(decimal(pid as nat)).with("/T"@),
            ],
        },
        Effect::SendForceful { pid } => match platform {
            Platform::Unix => unix_tree_signal(pid, true),
            Platform::Windows => seq![
                command("taskkill"@).with("/F"@).with("/PID"@).with(decimal(pid as nat)).with(
                    "/T"@,
                ),
            ],
        },
        Effect::KillChildren { pid } => match platform {
            Platform::Unix => seq![
                command("pkill"@).with("-9"@).with("-P"@).with(decimal(pid as nat)),
            ],
            Platform::Windows => seq![
                command("wmic"@).with("process"@).with("where"@).with(
                    "ParentProcessId="@ + decimal(pid as nat),
                ).with("delete"@),
            ],
        },
        Effect::KillByName => match platform {
            Platform::Unix => seq![command("pkill"@).with("-9"@).with("-f"@).with(worker_name())],
            Platform::Windows => seq![
                command("taskkill"@).with("/F"@).with("/IM"@).with(
                    sidecar_exe_name(Platform::Windows),
                ),
            ],
        },
    }
}

/// The command line whose output lists the processes asked for, where the
/// platform has one. Windows has none for the children of a process: there
/// the tree-wide kill commands reach them. Polling is put by
/// [`probe_for`], target by target.
pub open spec fn listing_for(platform: Platform, query: QueryView) -> Option<CommandLineView> {
    match query {
        QueryView::ListChildren { pid } => match platform {
            Platform::Unix => Some(command("pgrep"@).with("-P"@).with(decimal(pid as nat))),
            Platform::Windows => None,
        },
        QueryView::ListByName => match platform {
            Platform::Unix => Some(command("pgrep"@).with("-f"@).with(worker_name())),
            Platform::Windows => Some(
                command("wmic"@).with("process"@).with("where"@).with(
                    "name like '%provisioning-station%'"@,
                ).with("get"@).with("processid"@),
            ),
        },
        QueryView::Poll { .. } => None,
    }
}

/// The listing that answers `query` on `platform` starts with a header line.
pub open spec fn has_header(platform: Platform, query: QueryView) -> bool {
    platform == Platform::Windows && query is ListByName
}

/// The process ids that answer a listing. A command that could not be run,
/// or a question that is no listing, names none; otherwise what the command
/// printed counts, whatever its exit status.
pub open spec fn listing_answer(
    platform: Platform,
    query: QueryView,
    stdout: Option<Seq<char>>,
) -> Seq<u32> {
    match stdout {
        Some(text) => if listing_for(platform, query) is Some {
            listed_pids(text, has_header(platform, query))
        } else {
            Seq::empty()
        },
        None => Seq::empty(),
    }
}

/// The command line that finds out whether the process `pid` exists.
pub open spec fn probe_for(platform: Platform, pid: u32) -> CommandLineView {
    match platform {
        Platform::Unix => command("kill"@).with("-0"@).with(decimal(pid as nat)),
        Platform::Windows => command("tasklist"@).with("/FI"@).with(
            "PID eq "@ + decimal(pid as nat),
        ).with("/NH"@),
    }
}

/// The process `pid` exists, going by what [`probe_for`] left behind. On
/// Unix the probe succeeds for a process that exists; on Windows it prints a
/// line with the process id as one of its words, so that the digits of a
/// longer number do not pass for it. A probe that could not be run finds
/// nothing.
pub open spec fn probe_answer(
    platform: Platform,
    pid: u32,
    output: Option<(bool, Seq<char>)>,
) -> bool {
    match output {
        Some((success, stdout)) => match platform {
            Platform::Unix => success,
            Platform::Windows => contains_word(stdout, decimal(pid as nat)),
        },
        None => false,
    }
}

/// What the driver hands over of a command that it ran, or tried to.
pub open spec fn output_view(output: Option<&CommandOutput>) -> Option<(bool, Seq<char>)> {
    match output {
        Some(o) => Some((o.success, o.stdout@)),
        None => None,
    }
}

/// What the driver hands over of the output of a command.
pub open spec fn stdout_view(stdout: Option<&str>) -> Option<Seq<char>> {
    match stdout {
        Some(text) => Some(text@),
        None => None,
    }
}

fn number(n: u32) -> (s: String)
    ensures
        s@ == decimal(n as nat),
{
    let digits = decimal_chars(n as u64);
    let len: usize = digits.len();
    assert(digits@.subrange(0, len as int) =~= digits@);
    string_of(&digits, 0, len)
}

fn labelled(label: &str, n: u32) -> (s: String)
    ensures
        s@ == label@ + decimal(n as nat),
{
    let mut chars = chars_of(label);
    push_decimal(&mut chars, n as u64);
    let len: usize = chars.len();
    assert(chars@.subrange(0, len as int) =~= chars@);
    string_of(&chars, 0, len)
}

impl CommandLine {
    /// The command line of `program` without arguments.
    pub fn new(program: &str) -> (cmd: CommandLine)
        ensures
            cmd@ == command(program@),
    {
        let cmd = CommandLine { program: String::from_str(program), args: Vec::new() };
        assert(cmd@.args =~= Seq::empty());
        cmd
    }

    /// The command line with one more argument.
    pub fn arg(self, value: String) -> (cmd: CommandLine)
        ensures
            cmd@ == self@.with(value@),
    {
        let mut cmd = self;
        cmd.args.push(value);
        assert(cmd@.args =~= self@.args.push(value@));
        cmd
    }

    /// The command line with one more argument, given as text.
    pub fn flag(self, value: &str) -> (cmd: CommandLine)
        ensures
            cmd@ == self@.with(value@),
    {
        self.arg(String::from_str(value))
    }
}

fn one(cmd: CommandLine) -> (cmds: Vec<CommandLine>)
    ensures
        lines_of(cmds@) == seq![cmd@],
{
    let mut cmds: Vec<CommandLine> = Vec::new();
    cmds.push(cmd);
    assert(lines_of(cmds@) =~= seq![cmd@]);
    cmds
}

fn unix_tree_commands(pid: u32, forceful: bool) -> (cmds: Vec<CommandLine>)
    ensures
        lines_of(cmds@) == unix_tree_signal(pid, forceful),
{
    let signal = if forceful {
        "-9"
    } else {
        "-15"
    };
    let first = CommandLine::new("pkill").flag(signal).flag("-P").arg(number(pid));
    let second = CommandLine::new("kill").flag(signal).arg(number(pid));
    let mut cmds: Vec<CommandLine> = Vec::new();
    cmds.push(first);
    cmds.push(second);
    assert(lines_of(cmds@) =~= unix_tree_signal(pid, forceful));
    cmds
}

/// The command lines that perform `effect` on `platform`, in the order in
/// which they have to be run.
pub fn effect_commands(platform: Platform, effect: Effect) -> (cmds: Vec<CommandLine>)
    ensures
        lines_of(cmds@) == commands_for(platform, effect),
{
    match effect {
        Effect::KillHandle | Effect::Sleep { .. } => {
            let cmds: Vec<CommandLine> = Vec::new();
            assert(lines_of(cmds@) =~= Seq::empty());
            cmds
        },
        Effect::SendGraceful { pid } => match platform {
            Platform::Unix => unix_tree_commands(pid, false),
            Platform::Windows => one(
                CommandLine::new("taskkill").flag("/PID").arg(number(pid)).flag("/T"),
            ),
        },
        Effect::SendForceful { pid } => match platform {
            Platform::Unix => unix_tree_commands(pid, true),
            Platform::Windows => one(
                CommandLine::new("taskkill").flag("/F").flag("/PID").arg(number(pid)).flag("/T"),
            ),
        },
        Effect::KillChildren { pid } => match platform {
            Platform::Unix => one(
                CommandLine::new("pkill").flag("-9").flag("-P").arg(number(pid)),
            ),
            Platform::Windows => one(
                CommandLine::new("wmic").flag("process").flag("where").arg(
                    labelled("ParentProcessId=", pid),
                ).flag("delete"),
            ),
        },
        Effect::KillByName => match platform {
            Platform::Unix => one(
                CommandLine::new("pkill").flag("-9").flag("-f").flag(get_worker_name()),
            ),
            Platform::Windows => one(
                CommandLine::new("taskkill").flag("/F").flag("/IM").flag(
                    get_sidecar_exe_name(Platform::Windows),
                ),
            ),
        },
    }
}

/// A signal was delivered, going by what the commands of its effect left
/// behind, in their order: the last of them ran and reported success. What
/// the commands before it reported does not count, and an effect without
/// commands delivers nothing.
pub open spec fn delivered(outputs: Seq<Option<CommandOutput>>) -> bool {
    outputs.len() > 0 && (outputs.last() matches Some(output) && output.success)
}

/// Tells whether a signal was delivered, from what the commands of
/// [`effect_commands`] left behind; `None` stands for a command that could
/// not be run.
pub fn signal_delivered(outputs: &Vec<Option<CommandOutput>>) -> (ok: bool)
    ensures
        ok == delivered(outputs@),
{
    if outputs.len() == 0 {
        return false;
    }
    match &outputs[outputs.len() - 1] {
        Some(output) => output.success,
        None => false,
    }
}

/// The command line whose output answers the listing `query` on `platform`,
/// where there is one.
pub fn listing_command(platform: Platform, query: &Query) -> (cmd: Option<CommandLine>)
    ensures
        cmd is Some == listing_for(platform, query@) is Some,
        cmd matches Some(c) ==> Some(c@) == listing_for(platform, query@),
{
    match query {
        Query::ListChildren { pid } => match platform {
            Platform::Unix => Some(CommandLine::new("pgrep").flag("-P").arg(number(*pid))),
            Platform::Windows => None,
        },
        Query::ListByName => match platform {
            Platform::Unix => Some(
                CommandLine::new("pgrep").flag("-f").flag(get_worker_name()),
            ),
            Platform::Windows => Some(
                CommandLine::new("wmic").flag("process").flag("where").flag(
                    "name like '%provisioning-station%'",
                ).flag("get").flag("processid"),
            ),
        },
        Query::Poll { .. } => None,
    }
}

/// Reads the answer to the listing `query`: `stdout` is what the command of
/// [`listing_command`] printed, or `None` where it could not be run or there
/// was none to run.
pub fn listing_reply(platform: Platform, query: &Query, stdout: Option<&str>) -> (reply: Reply)
    ensures
        reply matches Reply::Pids(_),
        reply.pids() == listing_answer(platform, query@, stdout_view(stdout)),
{
    let header = match (platform, query) {
        (Platform::Windows, Query::ListByName) => true,
        _ => false,
    };
    let listed = match query {
        Query::ListChildren { .. } => match platform {
            Platform::Unix => true,
            Platform::Windows => false,
        },
        Query::ListByName => true,
        Query::Poll { .. } => false,
    };
    match stdout {
        Some(text) => if listed {
            Reply::Pids(parse_pid_listing(text, header))
        } else {
            Reply::Pids(Vec::new())
        },
        None => Reply::Pids(Vec::new()),
    }
}

/// The command line that finds out whether the process `pid` exists.
pub fn probe_command(platform: Platform, pid: u32) -> (cmd: CommandLine)
    ensures
        cmd@ == probe_for(platform, pid),
{
    match platform {
        Platform::Unix => CommandLine::new("kill").flag("-0").arg(number(pid)),
        Platform::Windows => CommandLine::new("tasklist").flag("/FI").arg(
            labelled("PID eq ", pid),
        ).flag("/NH"),
    }
}

/// Tells whether the process `pid` exists, from what the command of
/// [`probe_command`] left behind; `None` where it could not be run.
pub fn is_process_running(platform: Platform, pid: u32, output: Option<&CommandOutput>) -> (running:
    bool)
    ensures
        running == probe_answer(platform, pid, output_view(output)),
{
    match output {
        None => false,
        Some(o) => match platform {
            Platform::Unix => o.success,
            Platform::Windows => {
                let hay = chars_of(o.stdout.as_str());
                let needle = decimal_chars(pid as u64);
                has_word(&hay, &needle)
            },
        },
    }
}

} // verus!
