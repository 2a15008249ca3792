//! What holds of the shell whatever it is given: statements about whole
//! exchanges between the shell and its host, proved from the transition
//! function.

use crate::builtins::argv_of;
use crate::command::{command_of, lemma_builtin_names, Command};
use crate::model::{
    answers, as_lines, request_of, run, settled, step, EventView, Outcome, OutputView,
    PendingView, RequestView, ShellView,
};
use crate::words::{all_blank, joined, lemma_no_words_iff_blank, words_of};
use vstd::prelude::*;

verus! {

/// The line's first word is `name`: it is a call of that command.
pub open spec fn invokes(line: Seq<char>, name: Seq<char>) -> bool {
    words_of(line).len() > 0 && words_of(line)[0] == name
}

/// The arguments of the command on a line: its words but the first.
pub open spec fn arguments(line: Seq<char>) -> Seq<Seq<char>> {
    words_of(line).skip(1)
}

/// The state after one more event is the transition from the state before
/// it.
pub proof fn lemma_run_next(s: ShellView, events: Seq<EventView>, k: int)
    requires
        0 <= k < events.len(),
    ensures
        run(s, events.take(k + 1)) == step(run(s, events.take(k)), events[k]).shell,
{
    assert(events.take(k + 1).drop_last() =~= events.take(k));
}

/// Running two sequences of events one after the other is running their
/// concatenation.
pub proof fn lemma_run_concat(s: ShellView, first: Seq<EventView>, second: Seq<EventView>)
    ensures
        run(s, first + second) == run(run(s, first), second),
    decreases second.len(),
{
    if second.len() == 0 {
        assert(first + second =~= first);
    } else {
        assert((first + second).drop_last() =~= first + second.drop_last());
        lemma_run_concat(s, first, second.drop_last());
    }
}

/// An event that does not answer what the shell waits for changes nothing and
/// emits nothing.
pub proof fn law_stray_event_is_ignored(s: ShellView, event: EventView)
    requires
        !answers(s.pending, event),
    ensures
        step(s, event) == (Outcome { shell: s, outputs: Seq::empty() }),
{
}

/// Every answer to a request takes the shell to a state with a request of
/// its own, and only a line of input, or its end, can end the shell.
pub proof fn law_only_input_ends_the_shell(s: ShellView, event: EventView)
    requires
        !(s.pending is Exit),
        step(s, event).shell.pending is Exit,
    ensures
        s.pending is Line,
        event is Line,
{
}

/// A shell that has ended stays as it is.
pub proof fn law_ended_shell_stays_ended(s: ShellView, event: EventView)
    requires
        s.pending is Exit,
    ensures
        step(s, event) == (Outcome { shell: s, outputs: Seq::empty() }),
{
}

/// A line that holds nothing but white space runs no command: the shell
/// shows its prompt again.
pub proof fn law_blank_line_prompts_again(s: ShellView, line: Seq<char>)
    requires
        s.pending is Line,
        all_blank(line),
    ensures
        step(s, EventView::Line(Some(line))) == settled(s.stack, Seq::empty()),
        request_of(step(s, EventView::Line(Some(line))).shell.pending)
            == RequestView::WorkingDirectory,
{
    lemma_no_words_iff_blank(line);
}

/// The end of input ends the shell just as the command `exit` does.
pub proof fn law_end_of_input_is_exit(s: ShellView, line: Seq<char>)
    requires
        s.pending is Line,
        invokes(line, "exit"@),
    ensures
        step(s, EventView::Line(None)) == step(s, EventView::Line(Some(line))),
        step(s, EventView::Line(None)).shell.pending is Exit,
        request_of(step(s, EventView::Line(None)).shell.pending) == RequestView::Exit,
        step(s, EventView::Line(None)).outputs == Seq::<OutputView>::empty(),
{
    lemma_builtin_names();
}

/// `cd` with no argument asks for a change to the root directory, whatever
/// the state of the shell and wherever it was before.
pub proof fn law_cd_without_argument(s: ShellView, line: Seq<char>)
    requires
        s.pending is Line,
        words_of(line) == seq!["cd"@],
    ensures
        step(s, EventView::Line(Some(line))).shell.pending == PendingView::Cd("/"@),
        request_of(step(s, EventView::Line(Some(line))).shell.pending)
            == RequestView::ChangeDirectory("/"@),
        step(s, EventView::Line(Some(line))).shell.stack == s.stack,
        step(s, EventView::Line(Some(line))).outputs == Seq::<OutputView>::empty(),
{
    lemma_builtin_names();
}

/// `popd` on an empty stack asks for no change of directory: the notice is
/// emitted, the stack stays empty and the shell goes back to its prompt.
pub proof fn law_popd_on_empty_stack(s: ShellView, line: Seq<char>)
    requires
        s.pending is Line,
        s.stack.len() == 0,
        invokes(line, "popd"@),
    ensures
        step(s, EventView::Line(Some(line))).shell == (ShellView {
            stack: s.stack,
            pending: PendingView::Prompt,
        }),
        request_of(step(s, EventView::Line(Some(line))).shell.pending)
            == RequestView::WorkingDirectory,
        step(s, EventView::Line(Some(line))).outputs == seq![
            OutputView::Warning("popd: Directory stack is empty"@),
        ],
{
    lemma_builtin_names();
}

/// `echo` prints its arguments with a single space between neighbours,
/// however much white space stood between them on the line.
pub proof fn law_echo_joins_arguments(s: ShellView, line: Seq<char>)
    requires
        s.pending is Line,
        invokes(line, "echo"@),
    ensures
        step(s, EventView::Line(Some(line))).outputs == seq![
            OutputView::Line(joined(arguments(line))),
        ],
        step(s, EventView::Line(Some(line))).shell == (ShellView {
            stack: s.stack,
            pending: PendingView::Prompt,
        }),
{
    lemma_builtin_names();
}

/// `pwd` changes nothing in the shell and prints what the host reports, so
/// two calls in a row for which the host reports the same directory print the
/// same.
pub proof fn law_pwd_repeatable(
    s: ShellView,
    first: Seq<char>,
    second: Seq<char>,
    cwd: Option<Seq<char>>,
    shown: Option<Seq<char>>,
)
    requires
        s.pending is Line,
        invokes(first, "pwd"@),
        invokes(second, "pwd"@),
    ensures
        ({
            let asked = step(s, EventView::Line(Some(first))).shell;
            let told = step(asked, EventView::Directory(cwd));
            let prompted = step(told.shell, EventView::Directory(shown)).shell;
            let asked_again = step(prompted, EventView::Line(Some(second))).shell;
            let told_again = step(asked_again, EventView::Directory(cwd));
            &&& prompted == s
            &&& told_again.outputs == told.outputs
            &&& told_again.shell == told.shell
            &&& cwd matches Some(dir) ==> told.outputs == seq![OutputView::Line(dir)]
        }),
{
    lemma_builtin_names();
}

/// Two `pushd` and then two `popd`, each change of directory succeeding, end
/// with a change to the directory that the host reported as current when the
/// first `pushd` ran, and leave the stack as it was.
pub proof fn law_pushd_popd_round_trip(
    s: ShellView,
    pushd_one: Seq<char>,
    pushd_two: Seq<char>,
    popd_one: Seq<char>,
    popd_two: Seq<char>,
    start: Seq<char>,
    between: Seq<char>,
    shown: Option<Seq<char>>,
)
    requires
        s.pending is Line,
        invokes(pushd_one, "pushd"@),
        invokes(pushd_two, "pushd"@),
        invokes(popd_one, "popd"@),
        invokes(popd_two, "popd"@),
    ensures
        ({
            let events = seq![
                EventView::Line(Some(pushd_one)),
                EventView::Directory(Some(start)),
                EventView::Done(true),
                EventView::Directory(shown),
                EventView::Line(Some(pushd_two)),
                EventView::Directory(Some(between)),
                EventView::Done(true),
                EventView::Directory(shown),
                EventView::Line(Some(popd_one)),
                EventView::Done(true),
                EventView::Directory(shown),
                EventView::Line(Some(popd_two)),
            ];
            let last = run(s, events);
            &&& request_of(last.pending) == RequestView::ChangeDirectory(start)
            &&& last.stack == s.stack
            &&& step(last, EventView::Done(true)).shell == (ShellView {
                stack: s.stack,
                pending: PendingView::Prompt,
            })
        }),
{
    lemma_builtin_names();
    let events = seq![
        EventView::Line(Some(pushd_one)),
        EventView::Directory(Some(start)),
        EventView::Done(true),
        EventView::Directory(shown),
        EventView::Line(Some(pushd_two)),
        EventView::Directory(Some(between)),
        EventView::Done(true),
        EventView::Directory(shown),
        EventView::Line(Some(popd_one)),
        EventView::Done(true),
        EventView::Directory(shown),
        EventView::Line(Some(popd_two)),
    ];
    let one = seq![start] + s.stack;
    let two = seq![between] + one;
    assert(two.drop_first() =~= one);
    assert(one.drop_first() =~= s.stack);
    assert(run(s, events.take(0)) == s);
    lemma_run_next(s, events, 0);
    lemma_run_next(s, events, 1);
    lemma_run_next(s, events, 2);
    lemma_run_next(s, events, 3);
    assert(run(s, events.take(4)) == ShellView { stack: one, pending: PendingView::Line });
    lemma_run_next(s, events, 4);
    lemma_run_next(s, events, 5);
    lemma_run_next(s, events, 6);
    lemma_run_next(s, events, 7);
    assert(run(s, events.take(8)) == ShellView { stack: two, pending: PendingView::Line });
    lemma_run_next(s, events, 8);
    assert(run(s, events.take(9)) == ShellView { stack: one, pending: PendingView::Popd(between) });
    lemma_run_next(s, events, 9);
    lemma_run_next(s, events, 10);
    assert(run(s, events.take(11)) == ShellView { stack: one, pending: PendingView::Line });
    lemma_run_next(s, events, 11);
    assert(events.take(12) =~= events);
}

/// Whatever comes of running a program, the shell goes back to its prompt
/// and takes further input: a program that cannot be found or that ends
/// badly does not end the shell.
pub proof fn law_shell_survives_child(s: ShellView, outcome: Option<i32>)
    requires
        s.pending is Child,
    ensures
        step(s, EventView::Child(outcome)).shell == (ShellView {
            stack: s.stack,
            pending: PendingView::Prompt,
        }),
        request_of(step(s, EventView::Child(outcome)).shell.pending)
            == RequestView::WorkingDirectory,
{
}

/// A name that is no built-in command is run as a program, with the name
/// itself as the first entry of the argument vector.
pub proof fn law_unknown_name_is_run(s: ShellView, line: Seq<char>)
    requires
        s.pending is Line,
        words_of(line).len() > 0,
        command_of(words_of(line)[0]) == Command::External,
    ensures
        request_of(step(s, EventView::Line(Some(line))).shell.pending) == RequestView::Run(
            argv_of(words_of(line)[0], arguments(line)),
        ),
{
}

/// One `pushd` as the host sees it.
pub struct PushdRound {
    /// The line that was read; its first word is `pushd`.
    pub line: Seq<char>,
    /// The working directory that the host reported.
    pub cwd: Seq<char>,
    /// Whether the change of directory succeeded.
    pub entered: bool,
    /// What the host reported for the prompt that followed.
    pub shown: Option<Seq<char>>,
}

/// The events of one `pushd`, up to the prompt that follows it.
pub open spec fn pushd_events(round: PushdRound) -> Seq<EventView> {
    seq![
        EventView::Line(Some(round.line)),
        EventView::Directory(Some(round.cwd)),
        EventView::Done(round.entered),
        EventView::Directory(round.shown),
    ]
}

/// The state after a series of `pushd`, one after the other.
pub open spec fn after_pushds(s: ShellView, rounds: Seq<PushdRound>) -> ShellView
    decreases rounds.len(),
{
    if rounds.len() == 0 {
        s
    } else {
        run(after_pushds(s, rounds.drop_last()), pushd_events(rounds.last()))
    }
}

/// The directories that a series of `pushd` recorded, the most recent first.
pub open spec fn recorded(rounds: Seq<PushdRound>) -> Seq<Seq<char>> {
    Seq::new(rounds.len(), |i: int| rounds[rounds.len() - 1 - i].cwd)
}

/// One `pushd` puts the directory that the host reported in front of the
/// stack and leaves the shell waiting for the next line.
pub proof fn lemma_pushd_round(s: ShellView, round: PushdRound)
    requires
        s.pending is Line,
        invokes(round.line, "pushd"@),
    ensures
        run(s, pushd_events(round)) == (ShellView {
            stack: seq![round.cwd] + s.stack,
            pending: PendingView::Line,
        }),
{
    lemma_builtin_names();
    let events = pushd_events(round);
    assert(run(s, events.take(0)) == s);
    lemma_run_next(s, events, 0);
    lemma_run_next(s, events, 1);
    lemma_run_next(s, events, 2);
    lemma_run_next(s, events, 3);
    assert(events.take(4) =~= events);
}

/// A series of `pushd` puts the directories that the host reported on the
/// stack, the most recent in front, above what was there.
pub proof fn lemma_after_pushds(s: ShellView, rounds: Seq<PushdRound>)
    requires
        s.pending is Line,
        forall|i: int| 0 <= i < rounds.len() ==> invokes(#[trigger] rounds[i].line, "pushd"@),
    ensures
        after_pushds(s, rounds) == (ShellView {
            stack: recorded(rounds) + s.stack,
            pending: PendingView::Line,
        }),
    decreases rounds.len(),
{
    if rounds.len() == 0 {
        assert(recorded(rounds) + s.stack =~= s.stack);
    } else {
        let front = rounds.drop_last();
        assert forall|i: int| 0 <= i < front.len() implies invokes(
            #[trigger] front[i].line,
            "pushd"@,
        ) by {
            assert(front[i] == rounds[i]);
        }
        lemma_after_pushds(s, front);
        lemma_pushd_round(after_pushds(s, front), rounds.last());
        assert(seq![rounds.last().cwd] + (recorded(front) + s.stack) =~= recorded(rounds)
            + s.stack);
    }
}

/// `dirs` after a series of `pushd` prints the directories that the host
/// reported, one to a line and the most recent first, followed by what was on
/// the stack before: after `n` of them on a fresh stack, exactly `n` lines.
pub proof fn law_dirs_after_pushds(s: ShellView, rounds: Seq<PushdRound>, dirs: Seq<char>)
    requires
        s.pending is Line,
        rounds.len() > 0,
        forall|i: int| 0 <= i < rounds.len() ==> invokes(#[trigger] rounds[i].line, "pushd"@),
        invokes(dirs, "dirs"@),
    ensures
        step(after_pushds(s, rounds), EventView::Line(Some(dirs))).outputs == as_lines(
            recorded(rounds) + s.stack,
        ),
        s.stack.len() == 0 ==> step(
            after_pushds(s, rounds),
            EventView::Line(Some(dirs)),
        ).outputs.len() == rounds.len(),
        step(after_pushds(s, rounds), EventView::Line(Some(dirs))).shell.stack == recorded(rounds)
            + s.stack,
{
    lemma_builtin_names();
    lemma_after_pushds(s, rounds);
}

} // verus!
