//! What holds of every run.

use crate::kind::Kind;
use crate::outcome::{AbortReason, ErrorView, ExecutionOutcome};
use crate::protocol::{
    ActionView, Ending, Notice, Phase, Route, SessionView, spec_begin, spec_notices, spec_pending,
    spec_remaining, spec_replay, spec_step, spec_valid,
};
use crate::request::InvocationView;
use crate::scaffold::spec_scaffold;
use vstd::prelude::*;

verus! {

/// The layout of a kind that has a fallback names at least one directory
/// and at least one file; a kind without a fallback has an empty layout.
pub proof fn lemma_layout_populated(kind: Kind, project: Seq<char>)
    ensures
        kind.spec_has_fallback() ==> spec_scaffold(kind, project).directories.len() > 0
            && spec_scaffold(kind, project).files.len() > 0,
        !kind.spec_has_fallback() ==> spec_scaffold(kind, project).directories.len() == 0
            && spec_scaffold(kind, project).files.len() == 0,
{
}

/// A run opens in a valid state.
pub proof fn lemma_opening_valid(request: InvocationView)
    ensures
        spec_valid(spec_begin(request)),
{
    lemma_layout_populated(request.kind, request.project_name);
}

/// Whatever the answer, a valid state is followed by a valid state, and
/// the request never changes.
pub proof fn lemma_step_valid(state: SessionView, answer: bool)
    requires
        spec_valid(state),
    ensures
        spec_valid(spec_step(state, answer)),
        spec_step(state, answer).request == state.request,
{
    lemma_layout_populated(state.request.kind, state.request.project_name);
}

/// Every answer brings a run that is not over closer to its end.
pub proof fn lemma_step_progress(state: SessionView, answer: bool)
    requires
        spec_valid(state),
        !state.finished(),
    ensures
        spec_remaining(spec_step(state, answer)) < spec_remaining(state),
{
    lemma_layout_populated(state.request.kind, state.request.project_name);
}

/// A run that is over stays as it is.
pub proof fn lemma_finished_is_final(state: SessionView, answer: bool)
    requires
        state.finished(),
    ensures
        spec_step(state, answer) == state,
        spec_notices(state, answer) == Seq::<Notice>::empty(),
{
}

/// Replaying one answer more is one step more.
pub proof fn lemma_replay_extends(state: SessionView, answers: Seq<bool>, k: int)
    requires
        0 <= k < answers.len(),
    ensures
        spec_replay(state, answers.take(k + 1)) == spec_step(
            spec_replay(state, answers.take(k)),
            answers[k],
        ),
{
    assert(answers.take(k + 1).drop_last() =~= answers.take(k));
}

/// A replay can be cut anywhere: replay the first `k` answers, then the
/// rest from where they led.
pub proof fn lemma_replay_splits(state: SessionView, answers: Seq<bool>, k: int)
    requires
        0 <= k <= answers.len(),
    ensures
        spec_replay(state, answers) == spec_replay(
            spec_replay(state, answers.take(k)),
            answers.skip(k),
        ),
    decreases answers.len(),
{
    if k == answers.len() {
        assert(answers.take(k) =~= answers);
        assert(answers.skip(k) =~= Seq::<bool>::empty());
    } else {
        lemma_replay_splits(state, answers.drop_last(), k);
        assert(answers.drop_last().take(k) =~= answers.take(k));
        assert(answers.drop_last().skip(k) =~= answers.skip(k).drop_last());
    }
}

/// Every state of a run is valid, and the request stays what it was.
pub proof fn lemma_replay_valid(state: SessionView, answers: Seq<bool>)
    requires
        spec_valid(state),
    ensures
        spec_valid(spec_replay(state, answers)),
        spec_replay(state, answers).request == state.request,
    decreases answers.len(),
{
    if answers.len() > 0 {
        lemma_replay_valid(state, answers.drop_last());
        lemma_step_valid(spec_replay(state, answers.drop_last()), answers.last());
    }
}

/// Every run ends: after as many answers as `spec_remaining` counts, it is
/// over, whatever the answers were.
pub proof fn lemma_run_ends(state: SessionView, answers: Seq<bool>)
    requires
        spec_valid(state),
        answers.len() >= spec_remaining(state),
    ensures
        spec_replay(state, answers).finished(),
{
    lemma_remaining_shrinks(state, answers);
    lemma_replay_valid(state, answers);
    lemma_layout_populated(state.request.kind, state.request.project_name);
}

/// Each answer of a replay takes at least one off what remains.
proof fn lemma_remaining_shrinks(state: SessionView, answers: Seq<bool>)
    requires
        spec_valid(state),
    ensures
        spec_replay(state, answers).finished() || spec_remaining(spec_replay(state, answers))
            + answers.len() <= spec_remaining(state),
    decreases answers.len(),
{
    if answers.len() > 0 {
        let before = spec_replay(state, answers.drop_last());
        lemma_remaining_shrinks(state, answers.drop_last());
        lemma_replay_valid(state, answers.drop_last());
        if !before.finished() {
            lemma_step_progress(before, answers.last());
        }
    }
}

/// In non-interactive mode no run ever asks the user anything.
pub proof fn lemma_non_interactive_never_confirms(request: InvocationView, answers: Seq<bool>)
    requires
        request.non_interactive,
    ensures
        !(spec_pending(spec_replay(spec_begin(request), answers)) is Confirm),
{
    lemma_opening_valid(request);
    lemma_replay_valid(spec_begin(request), answers);
}

/// Where the kind has a fallback and the mode is non-interactive, a
/// generator reported absent leads straight to the first directory of the
/// layout.
pub proof fn lemma_absent_generator_takes_fallback(request: InvocationView)
    requires
        request.kind.spec_generator() is Some,
        request.kind.spec_has_fallback(),
        request.non_interactive,
    ensures
        spec_pending(spec_step(spec_begin(request), false)) == ActionView::CreateDir(
            spec_scaffold(request.kind, request.project_name).directories[0],
        ),
        spec_notices(spec_begin(request), false) == seq![
            Notice::GeneratorMissing(request.kind.spec_generator()->0),
        ],
{
}

/// The states of a run that builds the layout by hand and has met no
/// failure.
pub open spec fn spec_on_fallback(phase: Phase) -> bool {
    match phase {
        Phase::CreatingDirectory(_) => true,
        Phase::WritingFile(_) => true,
        Phase::ProbingInterpreter(route) => route == Route::Fallback,
        Phase::ProbingAlias(route) => route == Route::Fallback,
        Phase::Provisioning(route, _) => route == Route::Fallback,
        Phase::Finished(ending) => ending == Ending::Generated(Route::Fallback),
        _ => false,
    }
}

/// Whether an action changes the disk by this library's own hand.
pub open spec fn spec_writes(action: ActionView) -> bool {
    action is CreateDir || action is WriteFile
}

/// No directory and no file of the first `k` answered actions failed.
pub open spec fn spec_writes_succeed(state: SessionView, answers: Seq<bool>, k: int) -> bool {
    forall|m: int|
        0 <= m < k && spec_writes(spec_pending(spec_replay(state, #[trigger] answers.take(m))))
            ==> answers[m]
}

/// Nothing stands between the run and its fallback but the probe, and the
/// probe reports the generator absent: either the kind has no generator,
/// or the first answer is a no.
pub open spec fn spec_generator_absent(request: InvocationView, answers: Seq<bool>) -> bool {
    request.kind.spec_generator() is Some ==> answers.len() >= 1 && !answers[0]
}

proof fn lemma_fallback_holds(request: InvocationView, answers: Seq<bool>, k: int)
    requires
        request.kind.spec_has_fallback(),
        request.non_interactive,
        spec_generator_absent(request, answers),
        request.kind.spec_generator() is Some ==> 1 <= k,
        0 <= k <= answers.len(),
        spec_writes_succeed(spec_begin(request), answers, k),
    ensures
        spec_on_fallback(spec_replay(spec_begin(request), answers.take(k)).phase),
    decreases k,
{
    let start = spec_begin(request);
    lemma_opening_valid(request);
    lemma_layout_populated(request.kind, request.project_name);
    if k == 0 {
        assert(answers.take(0) =~= Seq::<bool>::empty());
    } else {
        lemma_replay_extends(start, answers, k - 1);
        lemma_replay_valid(start, answers.take(k - 1));
        if k == 1 && request.kind.spec_generator() is Some {
            assert(answers.take(0) =~= Seq::<bool>::empty());
        } else {
            lemma_fallback_holds(request, answers, k - 1);
            let before = spec_replay(start, answers.take(k - 1));
            if spec_writes(spec_pending(before)) {
                assert(answers[k - 1]);
            }
        }
    }
}

/// Where the kind has a fallback and the mode is non-interactive, a run
/// whose generator is reported absent, and in which no directory and no
/// file fails, ends in `GeneratedViaFallback`, whatever becomes of the
/// environment setup.
pub proof fn lemma_non_interactive_fallback_generates(
    request: InvocationView,
    answers: Seq<bool>,
)
    requires
        request.kind.spec_has_fallback(),
        request.non_interactive,
        spec_generator_absent(request, answers),
        spec_writes_succeed(spec_begin(request), answers, answers.len() as int),
        spec_replay(spec_begin(request), answers).finished(),
    ensures
        spec_pending(spec_replay(spec_begin(request), answers)) == ActionView::Finish(
            Ok(ExecutionOutcome::GeneratedViaFallback),
        ),
{
    lemma_layout_populated(request.kind, request.project_name);
    if answers.len() == 0 {
        assert(request.kind.spec_generator() is None);
    } else {
        lemma_fallback_holds(request, answers, answers.len() as int);
        assert(answers.take(answers.len() as int) =~= answers);
    }
}

/// Where the kind has no fallback, a generator reported absent ends the
/// run at once with `Aborted`, in either mode, and every later answer
/// leaves it there.
pub proof fn lemma_missing_dependency_aborts(request: InvocationView, answers: Seq<bool>)
    requires
        request.kind.spec_generator() is Some,
        !request.kind.spec_has_fallback(),
        answers.len() >= 1,
        !answers[0],
    ensures
        spec_pending(spec_replay(spec_begin(request), answers)) == ActionView::Finish(
            Ok(ExecutionOutcome::Aborted(AbortReason::MissingDependency)),
        ),
    decreases answers.len(),
{
    if answers.len() == 1 {
        assert(answers.drop_last() =~= Seq::<bool>::empty());
    } else {
        lemma_missing_dependency_aborts(request, answers.drop_last());
    }
}

/// The states from which no run ends in `Aborted`: a subprocess was
/// spawned or the layout was begun.
pub open spec fn spec_committed(phase: Phase) -> bool {
    match phase {
        Phase::ProbingGenerator(_) => false,
        Phase::Confirming(_) => false,
        Phase::Finished(ending) => ending != Ending::Declined && ending
            != Ending::MissingDependency,
        _ => true,
    }
}

proof fn lemma_committed_stays(state: SessionView, answers: Seq<bool>)
    requires
        spec_committed(state.phase),
    ensures
        spec_committed(spec_replay(state, answers).phase),
    decreases answers.len(),
{
    if answers.len() > 0 {
        lemma_committed_stays(state, answers.drop_last());
    }
}

/// A run that ends in `Aborted` has touched nothing: at no point did it
/// ask for a directory, a file or a subprocess.
pub proof fn lemma_aborted_run_touched_nothing(
    request: InvocationView,
    answers: Seq<bool>,
    k: int,
)
    requires
        0 <= k <= answers.len(),
        spec_pending(spec_replay(spec_begin(request), answers)) matches ActionView::Finish(
            Ok(ExecutionOutcome::Aborted(_)),
        ),
    ensures
        !spec_writes(spec_pending(spec_replay(spec_begin(request), answers.take(k)))),
        !(spec_pending(spec_replay(spec_begin(request), answers.take(k))) is Run),
{
    let start = spec_begin(request);
    let passed = spec_replay(start, answers.take(k));
    lemma_replay_splits(start, answers, k);
    if spec_committed(passed.phase) {
        lemma_committed_stays(passed, answers.skip(k));
    }
}

/// The states that follow the spawning of the generator.
pub open spec fn spec_on_tool(phase: Phase) -> bool {
    match phase {
        Phase::RunningGenerator(_) => true,
        Phase::ProbingInterpreter(route) => route == Route::Tool,
        Phase::ProbingAlias(route) => route == Route::Tool,
        Phase::Provisioning(route, _) => route == Route::Tool,
        Phase::Finished(ending) => ending == Ending::Generated(Route::Tool)
            || ending is GeneratorFailed,
        _ => false,
    }
}

proof fn lemma_fallback_excludes_tool(state: SessionView, answers: Seq<bool>)
    requires
        spec_writes(spec_pending(state)),
    ensures
        !spec_on_tool(spec_replay(state, answers).phase),
        !(spec_replay(state, answers).phase is ProbingGenerator),
        !(spec_replay(state, answers).phase is Confirming),
    decreases answers.len(),
{
    if answers.len() > 0 {
        lemma_fallback_excludes_tool(state, answers.drop_last());
    }
}

/// A failed generator is the end: a run that ends in `ToolExecution` never
/// asked for a directory or a file, before or after.
pub proof fn lemma_failed_generator_is_terminal(
    request: InvocationView,
    answers: Seq<bool>,
    k: int,
)
    requires
        0 <= k <= answers.len(),
        spec_pending(spec_replay(spec_begin(request), answers)) matches ActionView::Finish(
            Err(ErrorView::ToolExecution(_)),
        ),
    ensures
        !spec_writes(spec_pending(spec_replay(spec_begin(request), answers.take(k)))),
{
    let start = spec_begin(request);
    let passed = spec_replay(start, answers.take(k));
    lemma_replay_splits(start, answers, k);
    if spec_writes(spec_pending(passed)) {
        lemma_fallback_excludes_tool(passed, answers.skip(k));
    }
}

/// The environment setup is soft: once the project exists, the run ends in
/// the outcome of the route it took, whether the interpreter is found or
/// not and whether provisioning succeeds or not.
pub proof fn lemma_environment_is_soft(state: SessionView, route: Route, answers: Seq<bool>)
    requires
        state.phase == Phase::ProbingInterpreter(route),
        spec_replay(state, answers).finished(),
    ensures
        spec_replay(state, answers).phase == Phase::Finished(Ending::Generated(route)),
{
    lemma_environment_keeps_route(state, route, answers);
}

proof fn lemma_environment_keeps_route(state: SessionView, route: Route, answers: Seq<bool>)
    requires
        state.phase == Phase::ProbingInterpreter(route),
    ensures
        match spec_replay(state, answers).phase {
            Phase::ProbingInterpreter(taken) => taken == route,
            Phase::ProbingAlias(taken) => taken == route,
            Phase::Provisioning(taken, _) => taken == route,
            Phase::Finished(ending) => ending == Ending::Generated(route),
            _ => false,
        },
    decreases answers.len(),
{
    if answers.len() > 0 {
        lemma_environment_keeps_route(state, route, answers.drop_last());
    }
}

/// Whether `state` waits for the directory at `index`.
pub open spec fn spec_creating(state: SessionView, index: int) -> bool {
    state.phase matches Phase::CreatingDirectory(at) && at == index
}

/// Whether the directory at `index` was asked for and reported created
/// among the first `k` answers.
pub open spec fn spec_created_before(
    start: SessionView,
    answers: Seq<bool>,
    k: int,
    index: int,
) -> bool {
    exists|m: int|
        0 <= m < k && answers[m] && spec_creating(
            spec_replay(start, #[trigger] answers.take(m)),
            index,
        )
}

/// How many directories of the layout a state has behind it.
spec fn spec_directories_done(state: SessionView) -> int {
    match state.phase {
        Phase::CreatingDirectory(index) => index as int,
        Phase::WritingFile(_) => state.scaffold().directories.len() as int,
        _ => 0,
    }
}

proof fn lemma_directories_done(request: InvocationView, answers: Seq<bool>, k: int, index: int)
    requires
        0 <= k <= answers.len(),
        0 <= index < spec_directories_done(spec_replay(spec_begin(request), answers.take(k))),
    ensures
        spec_created_before(spec_begin(request), answers, k, index),
    decreases k,
{
    let start = spec_begin(request);
    lemma_opening_valid(request);
    if k == 0 {
        assert(answers.take(0) =~= Seq::<bool>::empty());
    } else {
        let before = spec_replay(start, answers.take(k - 1));
        lemma_replay_extends(start, answers, k - 1);
        lemma_replay_valid(start, answers.take(k - 1));
        if index < spec_directories_done(before) {
            lemma_directories_done(request, answers, k - 1, index);
            let m = choose|m: int|
                0 <= m < k - 1 && answers[m] && spec_creating(
                    spec_replay(start, #[trigger] answers.take(m)),
                    index,
                );
            assert(spec_creating(spec_replay(start, answers.take(m)), index));
        } else {
            assert(spec_creating(spec_replay(start, answers.take(k - 1)), index));
            assert(answers[k - 1]);
        }
    }
}

/// Directories come first: when a run asks for a file, every directory of
/// the layout has been asked for before, and was reported created.
pub proof fn lemma_directories_precede_files(
    request: InvocationView,
    answers: Seq<bool>,
    k: int,
    index: int,
)
    requires
        0 <= k <= answers.len(),
        spec_pending(spec_replay(spec_begin(request), answers.take(k))) is WriteFile,
        0 <= index < spec_scaffold(request.kind, request.project_name).directories.len(),
    ensures
        exists|m: int|
            0 <= m < k && answers[m] && spec_pending(
                spec_replay(spec_begin(request), #[trigger] answers.take(m)),
            ) == ActionView::CreateDir(
                spec_scaffold(request.kind, request.project_name).directories[index],
            ),
{
    let start = spec_begin(request);
    lemma_opening_valid(request);
    lemma_replay_valid(start, answers.take(k));
    lemma_directories_done(request, answers, k, index);
    let m = choose|m: int|
        0 <= m < k && answers[m] && spec_creating(
            spec_replay(start, #[trigger] answers.take(m)),
            index,
        );
    lemma_replay_valid(start, answers.take(m));
    assert(spec_pending(spec_replay(start, answers.take(m))) == ActionView::CreateDir(
        spec_scaffold(request.kind, request.project_name).directories[index],
    ));
}

} // verus!
