use minishell::shell::{Event, Output, Request, Shell};

fn owned(items: &[&str]) -> Vec<String> {
    items.iter().map(|s| s.to_string()).collect()
}

fn line(text: &str) -> Event {
    Event::Line(Some(text.to_string()))
}

fn directory(path: &str) -> Event {
    Event::Directory(Some(path.to_string()))
}

fn out(text: &str) -> Output {
    Output::Line(text.to_string())
}

fn warn(text: &str) -> Output {
    Output::Warning(text.to_string())
}

/// A host with a working directory and a set of directories that exist. It
/// carries out requests as an operating system would and collects what the
/// shell emits.
struct Host {
    cwd: String,
    dirs: Vec<String>,
    emitted: Vec<Output>,
    ran: Vec<Vec<String>>,
}

impl Host {
    fn new(cwd: &str, dirs: &[&str]) -> Host {
        Host { cwd: cwd.to_string(), dirs: owned(dirs), emitted: Vec::new(), ran: Vec::new() }
    }

    fn answer(&mut self, request: Request, input: &mut Vec<String>) -> Event {
        match request {
            Request::WorkingDirectory => Event::Directory(Some(self.cwd.clone())),
            Request::ReadLine => {
                if input.is_empty() {
                    Event::Line(None)
                } else {
                    Event::Line(Some(input.remove(0)))
                }
            }
            Request::ChangeDirectory(target) => {
                if self.dirs.contains(&target) {
                    self.cwd = target;
                    Event::Done(true)
                } else {
                    Event::Done(false)
                }
            }
            Request::MakeDirectory(name, mode) => {
                assert_eq!(mode, 0o755);
                if self.dirs.contains(&name) {
                    Event::Done(false)
                } else {
                    self.dirs.push(name);
                    Event::Done(true)
                }
            }
            Request::RemoveDirectory(name) => {
                if let Some(at) = self.dirs.iter().position(|d| *d == name) {
                    self.dirs.remove(at);
                    Event::Done(true)
                } else {
                    Event::Done(false)
                }
            }
            Request::Run(argv) => {
                let known = argv[0] == "ls" || argv[0] == "true";
                self.ran.push(argv);
                if known {
                    Event::Child(Some(0))
                } else {
                    Event::Child(Some(0x0100))
                }
            }
            Request::Exit => unreachable!(),
        }
    }

    /// Runs the shell over the given input until it ends; the prompts are
    /// left out of what is collected.
    fn session(&mut self, shell: &mut Shell, input: &[&str]) {
        let mut input = owned(input);
        let mut rounds = 0;
        while !shell.is_finished() {
            rounds += 1;
            assert!(rounds < 10_000);
            let event = self.answer(shell.request(), &mut input);
            for output in shell.step(event) {
                match output {
                    Output::Raw(text) if text.ends_with(" > ") => {}
                    other => self.emitted.push(other),
                }
            }
        }
        assert_eq!(shell.request(), Request::Exit);
    }
}

#[test]
fn a_new_shell_asks_for_the_directory_then_prompts() {
    let mut shell = Shell::new();
    assert!(!shell.is_finished());
    assert!(shell.stack().is_empty());
    assert_eq!(shell.request(), Request::WorkingDirectory);
    let shown = shell.step(directory("/home/me"));
    assert_eq!(shown, vec![Output::Raw("/home/me > ".to_string())]);
    assert_eq!(shell.request(), Request::ReadLine);
}

#[test]
fn the_prompt_falls_back_to_unknown() {
    let mut shell = Shell::new();
    let shown = shell.step(Event::Directory(None));
    assert_eq!(shown, vec![Output::Raw("unknown > ".to_string())]);
    assert_eq!(shell.request(), Request::ReadLine);
}

#[test]
fn an_empty_line_prompts_again() {
    let mut shell = Shell::new();
    shell.step(directory("/"));
    assert_eq!(shell.step(line("   ")), vec![]);
    assert_eq!(shell.request(), Request::WorkingDirectory);
    assert_eq!(shell.step(directory("/")), vec![Output::Raw("/ > ".to_string())]);
    assert_eq!(shell.request(), Request::ReadLine);
}

#[test]
fn end_of_input_ends_the_shell() {
    let mut shell = Shell::new();
    shell.step(directory("/"));
    assert_eq!(shell.step(Event::Line(None)), vec![]);
    assert!(shell.is_finished());
    assert_eq!(shell.request(), Request::Exit);
    assert_eq!(shell.step(line("pwd")), vec![]);
    assert!(shell.is_finished());
}

#[test]
fn exit_ends_the_shell() {
    let mut host = Host::new("/", &["/"]);
    let mut shell = Shell::new();
    host.session(&mut shell, &["exit", "echo never"]);
    assert!(shell.is_finished());
    assert_eq!(host.emitted, vec![]);
}

#[test]
fn an_event_that_answers_nothing_is_ignored() {
    let mut shell = Shell::new();
    assert_eq!(shell.step(line("pwd")), vec![]);
    assert_eq!(shell.step(Event::Done(true)), vec![]);
    assert_eq!(shell.step(Event::Child(Some(0))), vec![]);
    assert_eq!(shell.request(), Request::WorkingDirectory);
    shell.step(directory("/"));
    shell.step(line("cd /tmp"));
    assert_eq!(shell.step(directory("/")), vec![]);
    assert_eq!(shell.step(line("pwd")), vec![]);
    assert_eq!(shell.request(), Request::ChangeDirectory("/tmp".to_string()));
}

#[test]
fn pwd_prints_the_working_directory() {
    let mut host = Host::new("/srv", &["/srv"]);
    let mut shell = Shell::new();
    host.session(&mut shell, &["pwd"]);
    assert_eq!(host.emitted, vec![out("/srv")]);
}

#[test]
fn pwd_twice_prints_the_same() {
    let mut host = Host::new("/srv/data", &["/srv/data"]);
    let mut shell = Shell::new();
    host.session(&mut shell, &["pwd", "pwd"]);
    assert_eq!(host.emitted, vec![out("/srv/data"), out("/srv/data")]);
}

#[test]
fn pwd_complains_when_the_directory_is_unknown() {
    let mut shell = Shell::new();
    shell.step(Event::Directory(None));
    shell.step(line("pwd"));
    assert_eq!(shell.request(), Request::WorkingDirectory);
    assert_eq!(
        shell.step(Event::Directory(None)),
        vec![warn("Error: Failed to get current directory")]
    );
    assert_eq!(shell.request(), Request::WorkingDirectory);
}

#[test]
fn cd_changes_the_directory() {
    let mut host = Host::new("/", &["/", "/tmp"]);
    let mut shell = Shell::new();
    host.session(&mut shell, &["cd /tmp", "pwd"]);
    assert_eq!(host.cwd, "/tmp");
    assert_eq!(host.emitted, vec![out("/tmp")]);
}

#[test]
fn cd_without_argument_goes_to_the_root() {
    for start in ["/", "/tmp", "/a/b/c"] {
        let mut host = Host::new(start, &["/", "/tmp", "/a/b/c"]);
        let mut shell = Shell::new();
        host.session(&mut shell, &["cd"]);
        assert_eq!(host.cwd, "/");
        assert_eq!(host.emitted, vec![]);
    }
    let mut shell = Shell::new();
    shell.step(directory("/somewhere"));
    shell.step(line("cd"));
    assert_eq!(shell.request(), Request::ChangeDirectory("/".to_string()));
}

#[test]
fn cd_failure_names_the_target() {
    let mut host = Host::new("/", &["/"]);
    let mut shell = Shell::new();
    host.session(&mut shell, &["cd /nowhere", "pwd"]);
    assert_eq!(host.cwd, "/");
    assert_eq!(
        host.emitted,
        vec![warn("cd: Failed to change directory to /nowhere"), out("/")]
    );
}

#[test]
fn pushd_twice_popd_twice_returns_to_the_start() {
    let mut host = Host::new("/start", &["/start", "/one", "/two"]);
    let mut shell = Shell::new();
    host.session(&mut shell, &["pushd /one", "pushd /two", "pwd", "popd", "pwd", "popd", "pwd"]);
    assert_eq!(host.cwd, "/start");
    assert!(shell.stack().is_empty());
    assert_eq!(host.emitted, vec![out("/two"), out("/one"), out("/start")]);
}

#[test]
fn dirs_after_pushds_lists_most_recent_first() {
    let mut host = Host::new("/a", &["/a", "/b", "/c", "/d"]);
    let mut shell = Shell::new();
    host.session(&mut shell, &["pushd /b", "pushd /c", "pushd /d", "dirs"]);
    assert_eq!(host.emitted, vec![out("/c"), out("/b"), out("/a")]);
    assert_eq!(shell.stack().entries(), owned(&["/c", "/b", "/a"]));
}

#[test]
fn dirs_on_an_empty_stack_says_so() {
    let mut host = Host::new("/", &["/"]);
    let mut shell = Shell::new();
    host.session(&mut shell, &["dirs"]);
    assert_eq!(host.emitted, vec![out("Directory stack is empty")]);
}

#[test]
fn pushd_pushes_even_when_the_change_fails() {
    let mut host = Host::new("/a", &["/a"]);
    let mut shell = Shell::new();
    host.session(&mut shell, &["pushd /missing", "dirs"]);
    assert_eq!(host.cwd, "/a");
    assert_eq!(
        host.emitted,
        vec![warn("cd: Failed to change directory to /missing"), out("/a")]
    );
}

#[test]
fn pushd_without_argument_goes_to_the_root() {
    let mut host = Host::new("/a", &["/", "/a"]);
    let mut shell = Shell::new();
    host.session(&mut shell, &["pushd", "dirs"]);
    assert_eq!(host.cwd, "/");
    assert_eq!(host.emitted, vec![out("/a")]);
}

#[test]
fn pushd_without_a_working_directory_complains() {
    let mut shell = Shell::new();
    shell.step(Event::Directory(None));
    shell.step(line("pushd /tmp"));
    assert_eq!(shell.request(), Request::WorkingDirectory);
    assert_eq!(
        shell.step(Event::Directory(None)),
        vec![warn("pushd: Unable to get current directory")]
    );
    assert!(shell.stack().is_empty());
    assert_eq!(shell.request(), Request::WorkingDirectory);
}

#[test]
fn popd_on_an_empty_stack_changes_nothing() {
    let mut host = Host::new("/here", &["/here"]);
    let mut shell = Shell::new();
    host.session(&mut shell, &["popd", "pwd"]);
    assert_eq!(host.cwd, "/here");
    assert_eq!(host.emitted, vec![warn("popd: Directory stack is empty"), out("/here")]);

    let mut shell = Shell::new();
    shell.step(directory("/here"));
    assert_eq!(shell.step(line("popd")), vec![warn("popd: Directory stack is empty")]);
    assert_eq!(shell.request(), Request::WorkingDirectory);
    assert!(shell.stack().is_empty());
}

#[test]
fn popd_failure_names_the_target_and_drops_the_entry() {
    let mut host = Host::new("/gone", &["/tmp"]);
    let mut shell = Shell::new();
    host.session(&mut shell, &["pushd /tmp", "popd", "dirs"]);
    assert_eq!(host.cwd, "/tmp");
    assert_eq!(
        host.emitted,
        vec![warn("popd: Failed to change directory to /gone"), out("Directory stack is empty")]
    );
}

#[test]
fn echo_collapses_white_space() {
    let mut host = Host::new("/", &["/"]);
    let mut shell = Shell::new();
    host.session(&mut shell, &["echo a b   c", "echo", "  echo\t$HOME   *  "]);
    assert_eq!(host.emitted, vec![out("a b c"), out(""), out("$HOME *")]);
}

#[test]
fn clear_emits_the_escape_sequence() {
    let mut host = Host::new("/", &["/"]);
    let mut shell = Shell::new();
    host.session(&mut shell, &["clear"]);
    assert_eq!(host.emitted, vec![Output::Raw("\x1B[2J\x1B[H".to_string())]);
}

#[test]
fn ls_runs_without_arguments() {
    let mut host = Host::new("/", &["/"]);
    let mut shell = Shell::new();
    host.session(&mut shell, &["ls -l /tmp"]);
    assert_eq!(host.ran, vec![owned(&["ls"])]);
    assert_eq!(host.emitted, vec![out("Exit status: 0")]);
}

#[test]
fn mkdir_then_rmdir_leaves_the_directories_as_they_were() {
    let mut host = Host::new("/", &["/", "/tmp"]);
    let before = host.dirs.clone();
    let mut shell = Shell::new();
    host.session(&mut shell, &["mkdir newdir", "rmdir newdir"]);
    assert_eq!(host.dirs, before);
    assert_eq!(host.emitted, vec![]);

    let mut shell = Shell::new();
    shell.step(directory("/"));
    shell.step(line("mkdir newdir"));
    assert_eq!(shell.request(), Request::MakeDirectory("newdir".to_string(), 0o755));
    shell.step(Event::Done(true));
    shell.step(directory("/"));
    shell.step(line("rmdir newdir"));
    assert_eq!(shell.request(), Request::RemoveDirectory("newdir".to_string()));
}

#[test]
fn mkdir_and_rmdir_complain_without_a_name() {
    let mut host = Host::new("/", &["/"]);
    let mut shell = Shell::new();
    host.session(&mut shell, &["mkdir", "rmdir"]);
    assert_eq!(
        host.emitted,
        vec![warn("mkdir: Missing directory name"), warn("rmdir: Missing directory name")]
    );
    assert_eq!(host.dirs, owned(&["/"]));
}

#[test]
fn mkdir_and_rmdir_report_failure() {
    let mut host = Host::new("/", &["/", "taken"]);
    let mut shell = Shell::new();
    host.session(&mut shell, &["mkdir taken", "rmdir absent"]);
    assert_eq!(
        host.emitted,
        vec![
            warn("mkdir: Failed to create directory taken"),
            warn("rmdir: Failed to remove directory absent"),
        ]
    );
}

#[test]
fn an_unknown_command_does_not_stop_the_shell() {
    let mut host = Host::new("/", &["/"]);
    let mut shell = Shell::new();
    host.session(&mut shell, &["frobnicate --now x", "echo still here"]);
    assert_eq!(host.ran, vec![owned(&["frobnicate", "--now", "x"])]);
    assert_eq!(host.emitted, vec![out("Exit status: 1"), out("still here")]);
}

#[test]
fn a_failed_fork_is_reported() {
    let mut shell = Shell::new();
    shell.step(directory("/"));
    shell.step(line("cat file"));
    assert_eq!(shell.request(), Request::Run(owned(&["cat", "file"])));
    assert_eq!(shell.step(Event::Child(None)), vec![warn("Failed to fork process")]);
    assert_eq!(shell.request(), Request::WorkingDirectory);
}

#[test]
fn a_killed_child_is_passed_over_in_silence() {
    let mut shell = Shell::new();
    shell.step(directory("/"));
    shell.step(line("sleep 100"));
    assert_eq!(shell.step(Event::Child(Some(9))), vec![]);
    assert_eq!(shell.request(), Request::WorkingDirectory);
}

#[test]
fn the_exit_code_is_read_from_the_status_word() {
    let mut shell = Shell::new();
    shell.step(directory("/"));
    shell.step(line("false"));
    assert_eq!(shell.step(Event::Child(Some(0x2a00))), vec![out("Exit status: 42")]);
}
