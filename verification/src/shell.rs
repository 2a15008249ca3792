//! The executable shell: a state machine that is driven by its host. The host
//! asks what to do ([`Shell::request`]), does it, and reports what came of it
//! ([`Shell::step`]); the shell answers with the text to emit.

use crate::builtins::{
    change_directory, change_directory_failed, clear_screen, echo_command, execute_basic_command,
    list_directory, make_directory, make_directory_failed, pop_directory, pop_directory_failed,
    print_current_directory, print_directories, prompt, push_directory, remove_directory,
    remove_directory_failed, report_exit, DIRECTORY_MODE,
};
use crate::command::{classify, parse_line, Command};
use crate::model::{
    as_lines, complaint_unless, dispatch, initial, request_of, step, EventView, OutputView,
    PendingView, RequestView, ShellView,
};
use crate::stack::DirectoryStack;
use vstd::prelude::*;

verus! {

/// A piece of text for the host to emit.
#[derive(Debug, PartialEq, Eq)]
pub enum Output {
    /// A line on standard output.
    Line(String),
    /// A line on standard error.
    Warning(String),
    /// Text on standard output as it stands, with no line end, shown at once.
    Raw(String),
}

impl View for Output {
    type V = OutputView;

    open spec fn view(&self) -> OutputView {
        match self {
            Output::Line(text) => OutputView::Line(text@),
            Output::Warning(text) => OutputView::Warning(text@),
            Output::Raw(text) => OutputView::Raw(text@),
        }
    }
}

impl DeepView for Output {
    type V = OutputView;

    open spec fn deep_view(&self) -> OutputView {
        self@
    }
}

/// What the shell asks its host to do next.
#[derive(Debug, PartialEq, Eq)]
pub enum Request {
    /// Find the working directory; answered by [`Event::Directory`].
    WorkingDirectory,
    /// Read a line of input; answered by [`Event::Line`].
    ReadLine,
    /// Change the working directory; answered by [`Event::Done`].
    ChangeDirectory(String),
    /// Create a directory with the given permission bits; answered by
    /// [`Event::Done`].
    MakeDirectory(String, u32),
    /// Remove an empty directory; answered by [`Event::Done`].
    RemoveDirectory(String),
    /// Run a program in a child process and wait for it. The argument vector
    /// starts with the program's name. Answered by [`Event::Child`].
    Run(Vec<String>),
    /// Stop: the shell has ended.
    Exit,
}

impl View for Request {
    type V = RequestView;

    open spec fn view(&self) -> RequestView {
        match self {
            Request::WorkingDirectory => RequestView::WorkingDirectory,
            Request::ReadLine => RequestView::ReadLine,
            Request::ChangeDirectory(target) => RequestView::ChangeDirectory(target@),
            Request::MakeDirectory(name, mode) => RequestView::MakeDirectory(name@, *mode),
            Request::RemoveDirectory(name) => RequestView::RemoveDirectory(name@),
            Request::Run(argv) => RequestView::Run(argv.deep_view()),
            Request::Exit => RequestView::Exit,
        }
    }
}

/// What the host tells the shell.
#[derive(Debug, PartialEq, Eq)]
pub enum Event {
    /// The working directory, or `None` if it cannot be determined.
    Directory(Option<String>),
    /// A line of input, or `None` at the end of input.
    Line(Option<String>),
    /// Whether a change, creation or removal of a directory succeeded.
    Done(bool),
    /// The status that waiting for the child produced, or `None` if no child
    /// could be created.
    Child(Option<i32>),
}

impl View for Event {
    type V = EventView;

    open spec fn view(&self) -> EventView {
        match self {
            Event::Directory(cwd) => EventView::Directory(cwd.deep_view()),
            Event::Line(line) => EventView::Line(line.deep_view()),
            Event::Done(ok) => EventView::Done(*ok),
            Event::Child(status) => EventView::Child(*status),
        }
    }
}

/// What the shell is waiting for.
enum Pending {
    Prompt,
    Line,
    Pwd,
    Pushd(Vec<String>),
    Cd(String),
    Popd(String),
    Mkdir(String),
    Rmdir(String),
    Child(Vec<String>),
    Exit,
}

impl View for Pending {
    type V = PendingView;

    closed spec fn view(&self) -> PendingView {
        match self {
            Pending::Prompt => PendingView::Prompt,
            Pending::Line => PendingView::Line,
            Pending::Pwd => PendingView::Pwd,
            Pending::Pushd(args) => PendingView::Pushd(args.deep_view()),
            Pending::Cd(target) => PendingView::Cd(target@),
            Pending::Popd(target) => PendingView::Popd(target@),
            Pending::Mkdir(name) => PendingView::Mkdir(name@),
            Pending::Rmdir(name) => PendingView::Rmdir(name@),
            Pending::Child(argv) => PendingView::Child(argv.deep_view()),
            Pending::Exit => PendingView::Exit,
        }
    }
}

/// The shell: its directory stack and what it is waiting for.
pub struct Shell {
    stack: DirectoryStack,
    pending: Pending,
}

impl View for Shell {
    type V = ShellView;

    closed spec fn view(&self) -> ShellView {
        ShellView { stack: self.stack@, pending: self.pending@ }
    }
}

fn copy_all(items: &Vec<String>) -> (copies: Vec<String>)
    ensures
        copies.deep_view() == items.deep_view(),
{
    let mut copies: Vec<String> = Vec::new();
    let mut i: usize = 0;
    while i < items.len()
        invariant
            i <= items.len(),
            copies.len() == i,
            forall|j: int| 0 <= j < i ==> copies@[j]@ == items@[j]@,
        decreases items.len() - i,
    {
        copies.push(items[i].clone());
        i += 1;
    }
    assert(copies.deep_view() =~= items.deep_view());
    copies
}

fn one(output: Output) -> (outputs: Vec<Output>)
    ensures
        outputs.deep_view() == seq![output@],
{
    let mut outputs: Vec<Output> = Vec::new();
    outputs.push(output);
    assert(outputs.deep_view() =~= seq![output@]);
    outputs
}

fn none() -> (outputs: Vec<Output>)
    ensures
        outputs.deep_view() == Seq::<OutputView>::empty(),
{
    let outputs: Vec<Output> = Vec::new();
    assert(outputs.deep_view() =~= Seq::<OutputView>::empty());
    outputs
}

fn lines(texts: Vec<String>) -> (outputs: Vec<Output>)
    ensures
        outputs.deep_view() == as_lines(texts.deep_view()),
{
    let mut outputs: Vec<Output> = Vec::new();
    let ghost all = texts.deep_view();
    for text in it: texts
        invariant
            it.seq().len() == all.len(),
            forall|j: int| 0 <= j < all.len() ==> it.seq()[j]@ == all[j],
            outputs.len() == it.index(),
            forall|j: int| 0 <= j < outputs.len() ==> outputs@[j]@ == OutputView::Line(all[j]),
    {
        outputs.push(Output::Line(text));
    }
    assert(outputs.deep_view() =~= as_lines(all));
    outputs
}

fn unless(ok: bool, complaint: String) -> (outputs: Vec<Output>)
    ensures
        outputs.deep_view() == complaint_unless(ok, complaint@),
{
    if ok {
        none()
    } else {
        one(Output::Warning(complaint))
    }
}

impl Shell {
    /// A shell that has just started.
    pub fn new() -> (shell: Shell)
        ensures
            shell@ == initial(),
    {
        Shell { stack: DirectoryStack::new(), pending: Pending::Prompt }
    }

    /// The directory stack.
    pub fn stack(&self) -> (stack: &DirectoryStack)
        ensures
            stack@ == self@.stack,
    {
        &self.stack
    }

    /// Whether the shell has ended.
    pub fn is_finished(&self) -> (finished: bool)
        ensures
            finished == (self@.pending is Exit),
    {
        match &self.pending {
            Pending::Exit => true,
            _ => false,
        }
    }

    /// What the host is to do next.
    pub fn request(&self) -> (request: Request)
        ensures
            request@ == request_of(self@.pending),
    {
        match &self.pending {
            Pending::Prompt => Request::WorkingDirectory,
            Pending::Line => Request::ReadLine,
            Pending::Pwd => Request::WorkingDirectory,
            Pending::Pushd(_) => Request::WorkingDirectory,
            Pending::Cd(target) => Request::ChangeDirectory(target.clone()),
            Pending::Popd(target) => Request::ChangeDirectory(target.clone()),
            Pending::Mkdir(name) => Request::MakeDirectory(name.clone(), DIRECTORY_MODE),
            Pending::Rmdir(name) => Request::RemoveDirectory(name.clone()),
            Pending::Child(argv) => Request::Run(copy_all(argv)),
            Pending::Exit => Request::Exit,
        }
    }

    /// Takes a line of input and decides what it leads to.
    fn dispatch(&mut self, line: &str) -> (outputs: Vec<Output>)
        ensures
            final(self)@ == dispatch(old(self)@.stack, line@).shell,
            outputs.deep_view() == dispatch(old(self)@.stack, line@).outputs,
    {
        match parse_line(line) {
            None => {
                self.pending = Pending::Prompt;
                none()
            },
            Some(cl) => {
                match classify(cl.name.as_str()) {
                    Command::Pwd => {
                        self.pending = Pending::Pwd;
                        none()
                    },
                    Command::Cd => {
                        self.pending = Pending::Cd(change_directory(&cl.args));
                        none()
                    },
                    Command::Pushd => {
                        self.pending = Pending::Pushd(cl.args);
                        none()
                    },
                    Command::Popd => match pop_directory(&mut self.stack) {
                        Ok(target) => {
                            self.pending = Pending::Popd(target);
                            none()
                        },
                        Err(text) => {
                            self.pending = Pending::Prompt;
                            one(Output::Warning(text))
                        },
                    },
                    Command::Dirs => {
                        self.pending = Pending::Prompt;
                        lines(print_directories(&self.stack))
                    },
                    Command::Echo => {
                        self.pending = Pending::Prompt;
                        one(Output::Line(echo_command(&cl.args)))
                    },
                    Command::Clear => {
                        self.pending = Pending::Prompt;
                        one(Output::Raw(clear_screen()))
                    },
                    Command::Ls => {
                        self.pending = Pending::Child(list_directory(&cl.args));
                        none()
                    },
                    Command::Mkdir => match make_directory(&cl.args) {
                        Ok(name) => {
                            self.pending = Pending::Mkdir(name);
                            none()
                        },
                        Err(text) => {
                            self.pending = Pending::Prompt;
                            one(Output::Warning(text))
                        },
                    },
                    Command::Rmdir => match remove_directory(&cl.args) {
                        Ok(name) => {
                            self.pending = Pending::Rmdir(name);
                            none()
                        },
                        Err(text) => {
                            self.pending = Pending::Prompt;
                            one(Output::Warning(text))
                        },
                    },
                    Command::Exit => {
                        self.pending = Pending::Exit;
                        none()
                    },
                    Command::External => {
                        self.pending = Pending::Child(
                            execute_basic_command(cl.name.as_str(), &cl.args),
                        );
                        none()
                    },
                }
            },
        }
    }

    /// Tells the shell what came of its last request. The shell moves on and
    /// returns what is to be emitted, in order, before its next request is
    /// carried out. An event that does not answer the request is ignored.
    pub fn step(&mut self, event: Event) -> (outputs: Vec<Output>)
        ensures
            final(self)@ == step(old(self)@, event@).shell,
            outputs.deep_view() == step(old(self)@, event@).outputs,
    {
        let mut pending = Pending::Prompt;
        std::mem::swap(&mut self.pending, &mut pending);
        match (pending, event) {
            (Pending::Prompt, Event::Directory(cwd)) => {
                self.pending = Pending::Line;
                one(Output::Raw(prompt(&cwd)))
            },
            (Pending::Line, Event::Line(None)) => {
                self.pending = Pending::Exit;
                none()
            },
            (Pending::Line, Event::Line(Some(line))) => self.dispatch(line.as_str()),
            (Pending::Pwd, Event::Directory(cwd)) => {
                match print_current_directory(cwd) {
                    Ok(text) => one(Output::Line(text)),
                    Err(text) => one(Output::Warning(text)),
                }
            },
            (Pending::Pushd(args), Event::Directory(cwd)) => {
                match push_directory(&args, &mut self.stack, cwd) {
                    Ok(target) => {
                        self.pending = Pending::Cd(target);
                        none()
                    },
                    Err(text) => one(Output::Warning(text)),
                }
            },
            (Pending::Cd(target), Event::Done(ok)) => unless(
                ok,
                change_directory_failed(target.as_str()),
            ),
            (Pending::Popd(target), Event::Done(ok)) => unless(
                ok,
                pop_directory_failed(target.as_str()),
            ),
            (Pending::Mkdir(name), Event::Done(ok)) => unless(
                ok,
                make_directory_failed(name.as_str()),
            ),
            (Pending::Rmdir(name), Event::Done(ok)) => unless(
                ok,
                remove_directory_failed(name.as_str()),
            ),
            (Pending::Child(_), Event::Child(None)) => one(
                Output::Warning(String::from_str("Failed to fork process")),
            ),
            (Pending::Child(_), Event::Child(Some(status))) => {
                match report_exit(status) {
                    Some(text) => one(Output::Line(text)),
                    None => none(),
                }
            },
            (other, _) => {
                self.pending = other;
                none()
            },
        }
    }
}

} // verus!
