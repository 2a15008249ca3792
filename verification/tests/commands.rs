use minishell::builtins::{
    change_directory, change_directory_failed, clear_screen, command_not_found, echo_command,
    execute_basic_command, list_directory, make_directory, make_directory_failed, pop_directory,
    pop_directory_failed, print_current_directory, print_directories, prompt, push_directory,
    remove_directory, remove_directory_failed, DIRECTORY_MODE,
};
use minishell::command::{classify, parse_line, Command};
use minishell::stack::DirectoryStack;

fn owned(items: &[&str]) -> Vec<String> {
    items.iter().map(|s| s.to_string()).collect()
}

#[test]
fn built_in_names_are_routed() {
    assert_eq!(classify("pwd"), Command::Pwd);
    assert_eq!(classify("cd"), Command::Cd);
    assert_eq!(classify("pushd"), Command::Pushd);
    assert_eq!(classify("popd"), Command::Popd);
    assert_eq!(classify("dirs"), Command::Dirs);
    assert_eq!(classify("echo"), Command::Echo);
    assert_eq!(classify("clear"), Command::Clear);
    assert_eq!(classify("ls"), Command::Ls);
    assert_eq!(classify("mkdir"), Command::Mkdir);
    assert_eq!(classify("rmdir"), Command::Rmdir);
    assert_eq!(classify("exit"), Command::Exit);
}

#[test]
fn other_names_are_programs() {
    assert_eq!(classify("cat"), Command::External);
    assert_eq!(classify("PWD"), Command::External);
    assert_eq!(classify("Exit"), Command::External);
    assert_eq!(classify("cdx"), Command::External);
    assert_eq!(classify("c"), Command::External);
    assert_eq!(classify(""), Command::External);
    assert_eq!(classify("/bin/ls"), Command::External);
}

#[test]
fn a_line_parses_to_name_and_arguments() {
    let cl = parse_line("  mkdir   a  b ").unwrap();
    assert_eq!(cl.name, "mkdir");
    assert_eq!(cl.args, owned(&["a", "b"]));
    let cl = parse_line("pwd").unwrap();
    assert_eq!(cl.name, "pwd");
    assert!(cl.args.is_empty());
}

#[test]
fn a_blank_line_parses_to_nothing() {
    assert!(parse_line("").is_none());
    assert!(parse_line(" \t ").is_none());
    assert!(parse_line("\n").is_none());
}

#[test]
fn stack_is_last_in_first_out() {
    let mut stack = DirectoryStack::new();
    assert!(stack.is_empty());
    assert_eq!(stack.len(), 0);
    assert_eq!(stack.pop(), None);
    stack.push("/a".to_string());
    stack.push("/b".to_string());
    stack.push("/a".to_string());
    assert_eq!(stack.len(), 3);
    assert!(!stack.is_empty());
    assert_eq!(stack.entries(), owned(&["/a", "/b", "/a"]));
    assert_eq!(stack.pop(), Some("/a".to_string()));
    assert_eq!(stack.pop(), Some("/b".to_string()));
    assert_eq!(stack.entries(), owned(&["/a"]));
    assert_eq!(stack.pop(), Some("/a".to_string()));
    assert_eq!(stack.pop(), None);
    assert!(stack.is_empty());
}

#[test]
fn prompt_shows_the_directory_or_unknown() {
    assert_eq!(prompt(&Some("/home/me".to_string())), "/home/me > ");
    assert_eq!(prompt(&None), "unknown > ");
}

#[test]
fn pwd_prints_or_complains() {
    assert_eq!(print_current_directory(Some("/x".to_string())), Ok("/x".to_string()));
    assert_eq!(
        print_current_directory(None),
        Err("Error: Failed to get current directory".to_string())
    );
}

#[test]
fn cd_goes_to_its_argument_or_the_root() {
    assert_eq!(change_directory(&owned(&["/tmp"])), "/tmp");
    assert_eq!(change_directory(&owned(&["a", "b"])), "a");
    assert_eq!(change_directory(&owned(&[])), "/");
    assert_eq!(change_directory_failed("/nowhere"), "cd: Failed to change directory to /nowhere");
}

#[test]
fn pushd_records_the_working_directory() {
    let mut stack = DirectoryStack::new();
    let to = push_directory(&owned(&["/tmp"]), &mut stack, Some("/home".to_string()));
    assert_eq!(to, Ok("/tmp".to_string()));
    assert_eq!(stack.entries(), owned(&["/home"]));
    let to = push_directory(&owned(&[]), &mut stack, Some("/tmp".to_string()));
    assert_eq!(to, Ok("/".to_string()));
    assert_eq!(stack.entries(), owned(&["/tmp", "/home"]));
}

#[test]
fn pushd_without_a_working_directory_pushes_nothing() {
    let mut stack = DirectoryStack::new();
    stack.push("/keep".to_string());
    let to = push_directory(&owned(&["/tmp"]), &mut stack, None);
    assert_eq!(to, Err("pushd: Unable to get current directory".to_string()));
    assert_eq!(stack.entries(), owned(&["/keep"]));
}

#[test]
fn popd_returns_the_front() {
    let mut stack = DirectoryStack::new();
    stack.push("/first".to_string());
    stack.push("/second".to_string());
    assert_eq!(pop_directory(&mut stack), Ok("/second".to_string()));
    assert_eq!(stack.entries(), owned(&["/first"]));
    assert_eq!(pop_directory(&mut stack), Ok("/first".to_string()));
    assert_eq!(pop_directory(&mut stack), Err("popd: Directory stack is empty".to_string()));
    assert!(stack.is_empty());
    assert_eq!(pop_directory_failed("/gone"), "popd: Failed to change directory to /gone");
}

#[test]
fn dirs_lists_front_to_back() {
    let mut stack = DirectoryStack::new();
    assert_eq!(print_directories(&stack), owned(&["Directory stack is empty"]));
    stack.push("/one".to_string());
    stack.push("/two".to_string());
    assert_eq!(print_directories(&stack), owned(&["/two", "/one"]));
}

#[test]
fn echo_joins_its_arguments() {
    assert_eq!(echo_command(&owned(&["a", "b", "c"])), "a b c");
    assert_eq!(echo_command(&owned(&[])), "");
    assert_eq!(echo_command(&owned(&["$HOME", "*"])), "$HOME *");
}

#[test]
fn clear_is_the_escape_sequence() {
    assert_eq!(clear_screen(), "\x1B[2J\x1B[H");
}

#[test]
fn programs_get_their_name_as_first_argument() {
    assert_eq!(execute_basic_command("cat", &owned(&["a", "b"])), owned(&["cat", "a", "b"]));
    assert_eq!(execute_basic_command("true", &owned(&[])), owned(&["true"]));
}

#[test]
fn ls_drops_its_arguments() {
    assert_eq!(list_directory(&owned(&["-l", "/tmp"])), owned(&["ls"]));
    assert_eq!(list_directory(&owned(&[])), owned(&["ls"]));
}

#[test]
fn mkdir_needs_a_name() {
    assert_eq!(make_directory(&owned(&["newdir"])), Ok("newdir".to_string()));
    assert_eq!(make_directory(&owned(&["a", "b"])), Ok("a".to_string()));
    assert_eq!(make_directory(&owned(&[])), Err("mkdir: Missing directory name".to_string()));
    assert_eq!(make_directory_failed("newdir"), "mkdir: Failed to create directory newdir");
    assert_eq!(DIRECTORY_MODE, 0o755);
}

#[test]
fn rmdir_needs_a_name() {
    assert_eq!(remove_directory(&owned(&["newdir"])), Ok("newdir".to_string()));
    assert_eq!(remove_directory(&owned(&[])), Err("rmdir: Missing directory name".to_string()));
    assert_eq!(remove_directory_failed("newdir"), "rmdir: Failed to remove directory newdir");
}

#[test]
fn a_missing_program_is_named() {
    assert_eq!(command_not_found("frobnicate"), "Command not found: frobnicate");
}
