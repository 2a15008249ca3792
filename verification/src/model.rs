//! The shell as a mathematical state machine: its states, what it can ask of
//! its host, what the host can tell it, and the transition function that the
//! executable shell is proved to follow.

use crate::builtins::{
    argv_of, cd_target, exit_report, mkdir_name, popd_target, prompt_text, pushd_target, pwd_line,
    rmdir_name, stack_after_popd, stack_after_pushd, stack_listing, DIRECTORY_MODE,
};
use crate::command::{command_of, parsed, Command};
use crate::words::joined;
use vstd::prelude::*;

verus! {

/// A piece of text for the host to emit.
pub enum OutputView {
    /// A line on standard output.
    Line(Seq<char>),
    /// A line on standard error.
    Warning(Seq<char>),
    /// Text on standard output as it stands, with no line end, shown at once.
    Raw(Seq<char>),
}

/// What the shell asks its host to do next.
pub enum RequestView {
    WorkingDirectory,
    ReadLine,
    ChangeDirectory(Seq<char>),
    MakeDirectory(Seq<char>, u32),
    RemoveDirectory(Seq<char>),
    Run(Seq<Seq<char>>),
    Exit,
}

/// What the host tells the shell.
pub enum EventView {
    /// The working directory, or `None` if it cannot be determined.
    Directory(Option<Seq<char>>),
    /// A line of input, or `None` at the end of input.
    Line(Option<Seq<char>>),
    /// Whether a change, creation or removal of a directory succeeded.
    Done(bool),
    /// The status that waiting for the child produced, or `None` if no child
    /// could be created.
    Child(Option<i32>),
}

/// What the shell is waiting for.
pub enum PendingView {
    /// The working directory, to show the prompt.
    Prompt,
    /// A line of input.
    Line,
    /// The working directory, for `pwd` to print.
    Pwd,
    /// The working directory, for `pushd` with these arguments to record.
    Pushd(Seq<Seq<char>>),
    /// The outcome of changing to this directory on behalf of `cd` or `pushd`.
    Cd(Seq<char>),
    /// The outcome of changing to this directory on behalf of `popd`.
    Popd(Seq<char>),
    /// The outcome of creating this directory.
    Mkdir(Seq<char>),
    /// The outcome of removing this directory.
    Rmdir(Seq<char>),
    /// The end of the child that runs this argument vector.
    Child(Seq<Seq<char>>),
    /// Nothing more: the shell has ended.
    Exit,
}

/// The state of the shell.
pub struct ShellView {
    pub stack: Seq<Seq<char>>,
    pub pending: PendingView,
}

/// The result of one transition: the new state and what is to be emitted, in
/// order, before anything else is done.
pub struct Outcome {
    pub shell: ShellView,
    pub outputs: Seq<OutputView>,
}

/// The state of a shell that has just started: an empty stack, about to show
/// its first prompt.
pub open spec fn initial() -> ShellView {
    ShellView { stack: Seq::empty(), pending: PendingView::Prompt }
}

/// What the host is asked to do while the shell waits for `pending`.
pub open spec fn request_of(pending: PendingView) -> RequestView {
    match pending {
        PendingView::Prompt => RequestView::WorkingDirectory,
        PendingView::Line => RequestView::ReadLine,
        PendingView::Pwd => RequestView::WorkingDirectory,
        PendingView::Pushd(_) => RequestView::WorkingDirectory,
        PendingView::Cd(target) => RequestView::ChangeDirectory(target),
        PendingView::Popd(target) => RequestView::ChangeDirectory(target),
        PendingView::Mkdir(name) => RequestView::MakeDirectory(name, DIRECTORY_MODE),
        PendingView::Rmdir(name) => RequestView::RemoveDirectory(name),
        PendingView::Child(argv) => RequestView::Run(argv),
        PendingView::Exit => RequestView::Exit,
    }
}

/// Whether `event` is an answer to what the shell waits for.
pub open spec fn answers(pending: PendingView, event: EventView) -> bool {
    match (request_of(pending), event) {
        (RequestView::WorkingDirectory, EventView::Directory(_)) => true,
        (RequestView::ReadLine, EventView::Line(_)) => true,
        (RequestView::ChangeDirectory(_), EventView::Done(_)) => true,
        (RequestView::MakeDirectory(_, _), EventView::Done(_)) => true,
        (RequestView::RemoveDirectory(_), EventView::Done(_)) => true,
        (RequestView::Run(_), EventView::Child(_)) => true,
        _ => false,
    }
}

/// A command is over: the shell goes back to showing its prompt.
pub open spec fn settled(stack: Seq<Seq<char>>, outputs: Seq<OutputView>) -> Outcome {
    Outcome { shell: ShellView { stack, pending: PendingView::Prompt }, outputs }
}

/// A command needs something of the host: the shell waits for it in silence.
pub open spec fn waiting(stack: Seq<Seq<char>>, pending: PendingView) -> Outcome {
    Outcome { shell: ShellView { stack, pending }, outputs: Seq::empty() }
}

/// Each text as a line on standard output.
pub open spec fn as_lines(texts: Seq<Seq<char>>) -> Seq<OutputView> {
    Seq::new(texts.len(), |i: int| OutputView::Line(texts[i]))
}

/// Nothing if the operation succeeded, else the complaint.
pub open spec fn complaint_unless(ok: bool, text: Seq<char>) -> Seq<OutputView> {
    if ok {
        Seq::empty()
    } else {
        seq![OutputView::Warning(text)]
    }
}

/// What a line of input leads to.
pub open spec fn dispatch(stack: Seq<Seq<char>>, line: Seq<char>) -> Outcome {
    match parsed(line) {
        None => settled(stack, Seq::empty()),
        Some(cl) => match command_of(cl.name) {
            Command::Pwd => waiting(stack, PendingView::Pwd),
            Command::Cd => waiting(stack, PendingView::Cd(cd_target(cl.args))),
            Command::Pushd => waiting(stack, PendingView::Pushd(cl.args)),
            Command::Popd => match popd_target(stack) {
                Ok(target) => waiting(stack_after_popd(stack), PendingView::Popd(target)),
                Err(text) => settled(stack, seq![OutputView::Warning(text)]),
            },
            Command::Dirs => settled(stack, as_lines(stack_listing(stack))),
            Command::Echo => settled(stack, seq![OutputView::Line(joined(cl.args))]),
            Command::Clear => settled(stack, seq![OutputView::Raw("\x1B[2J\x1B[H"@)]),
            Command::Ls => waiting(stack, PendingView::Child(argv_of("ls"@, Seq::empty()))),
            Command::Mkdir => match mkdir_name(cl.args) {
                Ok(name) => waiting(stack, PendingView::Mkdir(name)),
                Err(text) => settled(stack, seq![OutputView::Warning(text)]),
            },
            Command::Rmdir => match rmdir_name(cl.args) {
                Ok(name) => waiting(stack, PendingView::Rmdir(name)),
                Err(text) => settled(stack, seq![OutputView::Warning(text)]),
            },
            Command::Exit => waiting(stack, PendingView::Exit),
            Command::External => waiting(stack, PendingView::Child(argv_of(cl.name, cl.args))),
        },
    }
}

/// The transition function. An event that does not answer what the shell
/// waits for changes nothing and emits nothing.
pub open spec fn step(s: ShellView, e: EventView) -> Outcome {
    match (s.pending, e) {
        (PendingView::Prompt, EventView::Directory(cwd)) => Outcome {
            shell: ShellView { stack: s.stack, pending: PendingView::Line },
            outputs: seq![OutputView::Raw(prompt_text(cwd))],
        },
        (PendingView::Line, EventView::Line(None)) => waiting(s.stack, PendingView::Exit),
        (PendingView::Line, EventView::Line(Some(line))) => dispatch(s.stack, line),
        (PendingView::Pwd, EventView::Directory(cwd)) => match pwd_line(cwd) {
            Ok(text) => settled(s.stack, seq![OutputView::Line(text)]),
            Err(text) => settled(s.stack, seq![OutputView::Warning(text)]),
        },
        (PendingView::Pushd(args), EventView::Directory(cwd)) => match pushd_target(args, cwd) {
            Ok(target) => waiting(stack_after_pushd(s.stack, cwd), PendingView::Cd(target)),
            Err(text) => settled(s.stack, seq![OutputView::Warning(text)]),
        },
        (PendingView::Cd(target), EventView::Done(ok)) => settled(
            s.stack,
            complaint_unless(ok, "cd: Failed to change directory to "@ + target),
        ),
        (PendingView::Popd(target), EventView::Done(ok)) => settled(
            s.stack,
            complaint_unless(ok, "popd: Failed to change directory to "@ + target),
        ),
        (PendingView::Mkdir(name), EventView::Done(ok)) => settled(
            s.stack,
            complaint_unless(ok, "mkdir: Failed to create directory "@ + name),
        ),
        (PendingView::Rmdir(name), EventView::Done(ok)) => settled(
            s.stack,
            complaint_unless(ok, "rmdir: Failed to remove directory "@ + name),
        ),
        (PendingView::Child(_), EventView::Child(None)) => settled(
            s.stack,
            seq![OutputView::Warning("Failed to fork process"@)],
        ),
        (PendingView::Child(_), EventView::Child(Some(status))) => match exit_report(status) {
            Some(text) => settled(s.stack, seq![OutputView::Line(text)]),
            None => settled(s.stack, Seq::empty()),
        },
        _ => Outcome { shell: s, outputs: Seq::empty() },
    }
}

/// The state after a sequence of events.
pub open spec fn run(s: ShellView, events: Seq<EventView>) -> ShellView
    decreases events.len(),
{
    if events.len() == 0 {
        s
    } else {
        step(run(s, events.drop_last()), events.last()).shell
    }
}

} // verus!
