//! The command line: a command name with its arguments, and the table that
//! routes a name to the command it stands for.

use crate::text::same_text;
use crate::words::{split_words, words_of};
use vstd::prelude::*;

verus! {

/// What a command name stands for.
#[derive(Clone, Copy, Debug, PartialEq, Eq)]
pub enum Command {
    Pwd,
    Cd,
    Pushd,
    Popd,
    Dirs,
    Echo,
    Clear,
    Ls,
    Mkdir,
    Rmdir,
    Exit,
    /// Any other name: a program to be run.
    External,
}

/// The routing table. A name stands for a built-in command only if it is
/// exactly that command's name, letter for letter and case for case.
pub open spec fn command_of(name: Seq<char>) -> Command {
    if name == "pwd"@ {
        Command::Pwd
    } else if name == "cd"@ {
        Command::Cd
    } else if name == "pushd"@ {
        Command::Pushd
    } else if name == "popd"@ {
        Command::Popd
    } else if name == "dirs"@ {
        Command::Dirs
    } else if name == "echo"@ {
        Command::Echo
    } else if name == "clear"@ {
        Command::Clear
    } else if name == "ls"@ {
        Command::Ls
    } else if name == "mkdir"@ {
        Command::Mkdir
    } else if name == "rmdir"@ {
        Command::Rmdir
    } else if name == "exit"@ {
        Command::Exit
    } else {
        Command::External
    }
}

/// Looks a command name up in the routing table.
pub fn classify(name: &str) -> (command: Command)
    ensures
        command == command_of(name@),
{
    if same_text(name, "pwd") {
        Command::Pwd
    } else if same_text(name, "cd") {
        Command::Cd
    } else if same_text(name, "pushd") {
        Command::Pushd
    } else if same_text(name, "popd") {
        Command::Popd
    } else if same_text(name, "dirs") {
        Command::Dirs
    } else if same_text(name, "echo") {
        Command::Echo
    } else if same_text(name, "clear") {
        Command::Clear
    } else if same_text(name, "ls") {
        Command::Ls
    } else if same_text(name, "mkdir") {
        Command::Mkdir
    } else if same_text(name, "rmdir") {
        Command::Rmdir
    } else if same_text(name, "exit") {
        Command::Exit
    } else {
        Command::External
    }
}

/// Each built-in name is routed to its own command.
pub proof fn lemma_builtin_names()
    ensures
        command_of("pwd"@) == Command::Pwd,
        command_of("cd"@) == Command::Cd,
        command_of("pushd"@) == Command::Pushd,
        command_of("popd"@) == Command::Popd,
        command_of("dirs"@) == Command::Dirs,
        command_of("echo"@) == Command::Echo,
        command_of("clear"@) == Command::Clear,
        command_of("ls"@) == Command::Ls,
        command_of("mkdir"@) == Command::Mkdir,
        command_of("rmdir"@) == Command::Rmdir,
        command_of("exit"@) == Command::Exit,
{
    reveal_strlit("pwd");
    reveal_strlit("cd");
    reveal_strlit("pushd");
    reveal_strlit("popd");
    reveal_strlit("dirs");
    reveal_strlit("echo");
    reveal_strlit("clear");
    reveal_strlit("ls");
    reveal_strlit("mkdir");
    reveal_strlit("rmdir");
    reveal_strlit("exit");
    assert("pwd"@.len() == 3);
    assert("cd"@.len() == 2);
    assert("pushd"@.len() == 5 && "pushd"@[1] == 'u');
    assert("popd"@.len() == 4 && "popd"@[0] == 'p');
    assert("dirs"@.len() == 4 && "dirs"@[0] == 'd');
    assert("echo"@.len() == 4 && "echo"@[0] == 'e');
    assert("clear"@.len() == 5 && "clear"@[0] == 'c');
    assert("ls"@.len() == 2 && "ls"@[0] == 'l');
    assert("mkdir"@.len() == 5 && "mkdir"@[0] == 'm');
    assert("rmdir"@.len() == 5 && "rmdir"@[0] == 'r');
    assert("exit"@.len() == 4 && "exit"@[1] == 'x');
}

/// One parsed line of input: the command name and the arguments after it.
pub struct CommandLine {
    pub name: String,
    pub args: Vec<String>,
}

/// The mathematical content of a [`CommandLine`].
pub struct CommandLineView {
    pub name: Seq<char>,
    pub args: Seq<Seq<char>>,
}

impl View for CommandLine {
    type V = CommandLineView;

    open spec fn view(&self) -> CommandLineView {
        CommandLineView { name: self.name@, args: self.args.deep_view() }
    }
}

/// What a line parses to: nothing when it holds no word, else its first word
/// as the command name and the remaining words as arguments.
pub open spec fn parsed(line: Seq<char>) -> Option<CommandLineView> {
    let words = words_of(line);
    if words.len() == 0 {
        None
    } else {
        Some(CommandLineView { name: words[0], args: words.skip(1) })
    }
}

/// Parses a line of input. There is no quoting: every run of white space
/// separates two words.
pub fn parse_line(line: &str) -> (result: Option<CommandLine>)
    ensures
        result.is_some() == parsed(line@).is_some(),
        result matches Some(cl) ==> cl@ == parsed(line@)->0,
{
    let mut words = split_words(line);
    if words.len() == 0 {
        None
    } else {
        let ghost all = words.deep_view();
        let name = words.remove(0);
        assert(words.deep_view() =~= all.skip(1));
        Some(CommandLine { name, args: words })
    }
}

} // verus!
