//! The built-in commands, each as a function from what the command was given
//! to what it asks for or says. None of them touches the operating system:
//! where a command needs the working directory or the outcome of a system
//! call, it takes that as an argument.

use crate::stack::DirectoryStack;
use crate::status::{exit_code, exit_code_of};
use crate::text::{decimal_string, prefixed, signed_decimal_of};
use crate::words::{join_words, joined};
use vstd::prelude::*;

verus! {

/// The permission bits that `mkdir` creates a directory with.
pub const DIRECTORY_MODE: u32 = 0o755;

/// The directory that `cd` and `pushd` go to: the first argument, or the
/// root directory when there is none. Further arguments are not looked at.
pub open spec fn cd_target(args: Seq<Seq<char>>) -> Seq<char> {
    if args.len() > 0 {
        args[0]
    } else {
        "/"@
    }
}

/// What `dirs` prints: the entries one to a line, front first, or a notice
/// when there are none.
pub open spec fn stack_listing(stack: Seq<Seq<char>>) -> Seq<Seq<char>> {
    if stack.len() == 0 {
        seq!["Directory stack is empty"@]
    } else {
        stack
    }
}

/// The argument vector of a program: its name, then its arguments.
pub open spec fn argv_of(program: Seq<char>, args: Seq<Seq<char>>) -> Seq<Seq<char>> {
    seq![program] + args
}

/// What is said once a child has been waited for: its exit code if it exited,
/// nothing if it ended in another way.
pub open spec fn exit_report(status: i32) -> Option<Seq<char>> {
    match exit_code_of(status) {
        Some(code) => Some("Exit status: "@ + signed_decimal_of(code as int)),
        None => None,
    }
}

/// The texts inside a result that holds a string either way.
pub open spec fn texts(r: Result<String, String>) -> Result<Seq<char>, Seq<char>> {
    match r {
        Ok(text) => Ok(text@),
        Err(text) => Err(text@),
    }
}

/// What `pwd` says: the working directory, or a complaint when it is not
/// known.
pub open spec fn pwd_line(cwd: Option<Seq<char>>) -> Result<Seq<char>, Seq<char>> {
    match cwd {
        Some(dir) => Ok(dir),
        None => Err("Error: Failed to get current directory"@),
    }
}

/// Where `pushd` goes, or its complaint when the working directory is not
/// known.
pub open spec fn pushd_target(args: Seq<Seq<char>>, cwd: Option<Seq<char>>) -> Result<
    Seq<char>,
    Seq<char>,
> {
    match cwd {
        Some(_) => Ok(cd_target(args)),
        None => Err("pushd: Unable to get current directory"@),
    }
}

/// The stack after `pushd`: the working directory is put in front, if it is
/// known.
pub open spec fn stack_after_pushd(stack: Seq<Seq<char>>, cwd: Option<Seq<char>>) -> Seq<
    Seq<char>,
> {
    match cwd {
        Some(dir) => seq![dir] + stack,
        None => stack,
    }
}

/// Where `popd` goes: the front of the stack, or its notice when the stack is
/// empty.
pub open spec fn popd_target(stack: Seq<Seq<char>>) -> Result<Seq<char>, Seq<char>> {
    if stack.len() > 0 {
        Ok(stack[0])
    } else {
        Err("popd: Directory stack is empty"@)
    }
}

/// The stack after `popd`: without its front, if it had one.
pub open spec fn stack_after_popd(stack: Seq<Seq<char>>) -> Seq<Seq<char>> {
    if stack.len() > 0 {
        stack.drop_first()
    } else {
        stack
    }
}

/// The directory that `mkdir` creates: its first argument, or its complaint
/// when there is none.
pub open spec fn mkdir_name(args: Seq<Seq<char>>) -> Result<Seq<char>, Seq<char>> {
    if args.len() > 0 {
        Ok(args[0])
    } else {
        Err("mkdir: Missing directory name"@)
    }
}

/// The directory that `rmdir` removes: its first argument, or its complaint
/// when there is none.
pub open spec fn rmdir_name(args: Seq<Seq<char>>) -> Result<Seq<char>, Seq<char>> {
    if args.len() > 0 {
        Ok(args[0])
    } else {
        Err("rmdir: Missing directory name"@)
    }
}

/// The prompt: the working directory, or the word `unknown` when it cannot be
/// determined, followed by ` > `.
pub open spec fn prompt_text(cwd: Option<Seq<char>>) -> Seq<char> {
    match cwd {
        Some(dir) => dir + " > "@,
        None => "unknown"@ + " > "@,
    }
}

/// Renders the prompt for the given working directory.
pub fn prompt(cwd: &Option<String>) -> (text: String)
    ensures
        text@ == prompt_text(cwd.deep_view()),
{
    match cwd {
        Some(dir) => prefixed(dir.as_str(), " > "),
        None => prefixed("unknown", " > "),
    }
}

/// `pwd`: the working directory as a line for standard output, or, when it
/// could not be determined, a complaint for standard error.
pub fn print_current_directory(cwd: Option<String>) -> (line: Result<String, String>)
    ensures
        texts(line) == pwd_line(cwd.deep_view()),
{
    match cwd {
        Some(dir) => Ok(dir),
        None => Err(String::from_str("Error: Failed to get current directory")),
    }
}

/// `cd`: the directory to change to.
pub fn change_directory(args: &Vec<String>) -> (target: String)
    ensures
        target@ == cd_target(args.deep_view()),
{
    if args.len() > 0 {
        args[0].clone()
    } else {
        String::from_str("/")
    }
}

/// The complaint of `cd` when the directory could not be entered.
pub fn change_directory_failed(target: &str) -> (text: String)
    ensures
        text@ == "cd: Failed to change directory to "@ + target@,
{
    prefixed("cd: Failed to change directory to ", target)
}

/// `pushd`: records the working directory on the stack and gives the
/// directory to change to. When the working directory is not known the stack
/// is left alone and the complaint is returned instead.
pub fn push_directory(args: &Vec<String>, stack: &mut DirectoryStack, cwd: Option<String>) -> (target:
    Result<String, String>)
    ensures
        texts(target) == pushd_target(args.deep_view(), cwd.deep_view()),
        final(stack)@ == stack_after_pushd(old(stack)@, cwd.deep_view()),
{
    match cwd {
        Some(dir) => {
            stack.push(dir);
            Ok(change_directory(args))
        },
        None => Err(String::from_str("pushd: Unable to get current directory")),
    }
}

/// `popd`: takes the front entry off the stack and gives it as the directory
/// to change to. On an empty stack nothing changes and the notice is returned
/// instead.
pub fn pop_directory(stack: &mut DirectoryStack) -> (target: Result<String, String>)
    ensures
        texts(target) == popd_target(old(stack)@),
        final(stack)@ == stack_after_popd(old(stack)@),
{
    match stack.pop() {
        Some(dir) => Ok(dir),
        None => Err(String::from_str("popd: Directory stack is empty")),
    }
}

/// The complaint of `popd` when the directory could not be entered.
pub fn pop_directory_failed(target: &str) -> (text: String)
    ensures
        text@ == "popd: Failed to change directory to "@ + target@,
{
    prefixed("popd: Failed to change directory to ", target)
}

/// `dirs`: the lines to print.
pub fn print_directories(stack: &DirectoryStack) -> (lines: Vec<String>)
    ensures
        lines.deep_view() == stack_listing(stack@),
{
    if stack.is_empty() {
        let mut lines: Vec<String> = Vec::new();
        lines.push(String::from_str("Directory stack is empty"));
        assert(lines.deep_view() =~= stack_listing(stack@));
        lines
    } else {
        stack.entries()
    }
}

/// `echo`: the arguments joined by single spaces.
pub fn echo_command(args: &Vec<String>) -> (line: String)
    ensures
        line@ == joined(args.deep_view()),
{
    join_words(args)
}

/// `clear`: the escape sequence that clears the screen and moves the cursor
/// to the top left corner.
pub fn clear_screen() -> (sequence: String)
    ensures
        sequence@ == "\x1B[2J\x1B[H"@,
{
    String::from_str("\x1B[2J\x1B[H")
}

/// The argument vector for running `cmd` with `args`.
pub fn execute_basic_command(cmd: &str, args: &Vec<String>) -> (argv: Vec<String>)
    ensures
        argv.deep_view() == argv_of(cmd@, args.deep_view()),
{
    let mut argv: Vec<String> = Vec::new();
    argv.push(String::from_str(cmd));
    let mut i: usize = 0;
    while i < args.len()
        invariant
            i <= args.len(),
            argv.len() == i + 1,
            argv@[0]@ == cmd@,
            forall|j: int| 0 <= j < i ==> argv@[j + 1]@ == args@[j]@,
        decreases args.len() - i,
    {
        argv.push(args[i].clone());
        i += 1;
    }
    assert(argv.deep_view() =~= argv_of(cmd@, args.deep_view()));
    argv
}

/// `ls`: whatever arguments it is given, it runs the program `ls` with none.
pub fn list_directory(args: &Vec<String>) -> (argv: Vec<String>)
    ensures
        argv.deep_view() == argv_of("ls"@, Seq::empty()),
{
    let none: Vec<String> = Vec::new();
    assert(none.deep_view() =~= Seq::<Seq<char>>::empty());
    execute_basic_command("ls", &none)
}

/// `mkdir`: the name of the directory to create, or the complaint when no
/// name was given.
pub fn make_directory(args: &Vec<String>) -> (name: Result<String, String>)
    ensures
        texts(name) == mkdir_name(args.deep_view()),
{
    if args.len() > 0 {
        Ok(args[0].clone())
    } else {
        Err(String::from_str("mkdir: Missing directory name"))
    }
}

/// The complaint of `mkdir` when the directory could not be created.
pub fn make_directory_failed(name: &str) -> (text: String)
    ensures
        text@ == "mkdir: Failed to create directory "@ + name@,
{
    prefixed("mkdir: Failed to create directory ", name)
}

/// `rmdir`: the name of the directory to remove, or the complaint when no
/// name was given.
pub fn remove_directory(args: &Vec<String>) -> (name: Result<String, String>)
    ensures
        texts(name) == rmdir_name(args.deep_view()),
{
    if args.len() > 0 {
        Ok(args[0].clone())
    } else {
        Err(String::from_str("rmdir: Missing directory name"))
    }
}

/// The complaint of `rmdir` when the directory could not be removed.
pub fn remove_directory_failed(name: &str) -> (text: String)
    ensures
        text@ == "rmdir: Failed to remove directory "@ + name@,
{
    prefixed("rmdir: Failed to remove directory ", name)
}

/// What a child says, in its own process, when the program it was to become
/// could not be started.
pub fn command_not_found(cmd: &str) -> (text: String)
    ensures
        text@ == "Command not found: "@ + cmd@,
{
    prefixed("Command not found: ", cmd)
}

/// The line that reports how a child ended, given the status that waiting
/// for it produced. A child that did not exit normally is passed over in
/// silence.
pub fn report_exit(status: i32) -> (line: Option<String>)
    ensures
        line.deep_view() == exit_report(status),
{
    match exit_code(status) {
        Some(code) => {
            let digits = decimal_string(code);
            Some(prefixed("Exit status: ", digits.as_str()))
        },
        None => None,
    }
}

} // verus!
