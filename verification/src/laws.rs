//! What holds of every run of the dispatcher.

use crate::command::{internal_xdg_open, system_xdg_open, Stdio};
use crate::environment::Environment;
use crate::error::{os_failure, OpenErrorView};
use crate::freedesktop::uri_of;
use crate::machine::{failure_of, ActionView, EventView, Mechanism, Operation, Phase, StateView};
use crate::model::{
    begin, browser_model, dispatch_model, fall_back, feeds_script, initial, invocation_for,
    off_bus, open_model, pipes_stderr, record, resolved, transition, uses_bus,
};
use crate::paths::{containing_directory, parent_of};
use crate::strategy::{lemma_strategy_total, strategy_for};
use crate::win32::wide_path;
use vstd::prelude::*;

verus! {

/// A bound on the answers that a phase can still need, its own included,
/// before the request ends or the next mechanism has its turn.
pub open spec fn rank(phase: Phase) -> nat {
    match phase {
        Phase::Finished => 0,
        Phase::Collecting => 1,
        Phase::Executing => 1,
        Phase::Calling => 1,
        Phase::Joining => 1,
        Phase::Waiting => 2,
        Phase::OpeningFile => 2,
        Phase::Uninitializing => 2,
        Phase::Feeding => 3,
        Phase::Releasing => 3,
        Phase::Spawning => 4,
        Phase::Selecting => 4,
        Phase::Converting => 5,
        Phase::CreatingList => 5,
        Phase::Normalizing => 6,
        Phase::Initializing => 7,
        Phase::StartingWorker => 8,
        Phase::Resolving => 11,
        Phase::Connecting => 12,
    }
}

/// A bound on the answers that a mechanism can need from its first step on:
/// the rank of the phase that it starts in. Opening the directory that holds
/// the target has room for a whole request to open.
pub open spec fn budget(mechanism: Mechanism) -> nat {
    match mechanism {
        Mechanism::ShellExecute => 1,
        Mechanism::ShellExecuteNormalized => 6,
        Mechanism::ComReveal => 8,
        Mechanism::FileManager1 => 12,
        Mechanism::OpenUriPortal => 2,
        Mechanism::OpenParent => 11,
        _ => 5,
    }
}

/// The budgets of the mechanisms that wait, together.
pub open spec fn reserve(remaining: Seq<Mechanism>) -> nat
    decreases remaining.len(),
{
    if remaining.len() == 0 {
        0
    } else {
        budget(remaining[0]) + reserve(remaining.drop_first())
    }
}

/// A bound on the answers that a state can still need.
pub open spec fn effort(state: StateView) -> nat {
    rank(state.phase) + reserve(state.remaining)
}

/// A state as the dispatcher builds it: while the error stream of a child is
/// read, the child's status is at hand and is no success; and the retry of
/// the native shell holds the failure of the first attempt.
pub open spec fn well_formed(state: StateView) -> bool {
    &&& state.phase == Phase::Collecting ==> state.status is Some && !state.status->0.success()
    &&& state.mechanism == Mechanism::ShellExecuteNormalized ==> state.first_failure is Some
}

/// An event that reports that the action did what it was for.
pub open spec fn succeeded(event: EventView) -> bool {
    match event {
        EventView::Done => true,
        EventView::Exited(status) => status.success(),
        EventView::ShellExecuted { instance, last_error } => instance > 32,
        _ => false,
    }
}

/// Taking the mechanisms of the session bus off the front leaves no more in
/// reserve.
pub proof fn lemma_off_bus_reserve(remaining: Seq<Mechanism>)
    ensures
        reserve(off_bus(remaining)) <= reserve(remaining),
    decreases remaining.len(),
{
    if remaining.len() > 0 {
        lemma_off_bus_reserve(remaining.drop_first());
    }
}

/// The first step of a mechanism. It stays within the mechanism's budget
/// and what is in reserve; it ends the request exactly where it leaves the
/// state finished, and then with a failure; it leaves the state well formed
/// where the mechanism is not the retry of the native shell or a failure is
/// held.
pub proof fn lemma_begin(state: StateView)
    ensures
        effort(begin(state).state) <= budget(state.mechanism) + reserve(state.remaining),
        begin(state).action is Finish <==> begin(state).state.phase == Phase::Finished,
        begin(state).action != ActionView::Finish(Ok(())),
        begin(state).state.phase != Phase::Collecting,
        state.mechanism != Mechanism::ShellExecuteNormalized || state.first_failure is Some
            ==> well_formed(begin(state).state),
        begin(state).state.env == state.env,
        !(begin(state).action is DbusCall),
    decreases state.remaining.len(), 1nat,
{
    match state.mechanism {
        Mechanism::ShellExecute => {
            if wide_path(state.target) is Err {
                lemma_fall_back(state, OpenErrorView::Io(wide_path(state.target)->Err_0));
            }
        },
        _ => {},
    }
}

/// The step after a failure that lets the next mechanism in. It stays
/// within what is in reserve; it ends the request exactly where it leaves the
/// state finished, and then with a failure; it leaves the state well formed
/// where the mechanism is not the retry of the native shell or a failure is
/// held.
pub proof fn lemma_fall_back(state: StateView, failure: OpenErrorView)
    ensures
        effort(fall_back(state, failure).state) <= reserve(state.remaining),
        fall_back(state, failure).action is Finish <==> fall_back(state, failure).state.phase
            == Phase::Finished,
        fall_back(state, failure).action != ActionView::Finish(Ok(())),
        fall_back(state, failure).state.phase != Phase::Collecting,
        state.mechanism != Mechanism::ShellExecuteNormalized || state.first_failure is Some
            ==> well_formed(fall_back(state, failure).state),
        fall_back(state, failure).state.env == state.env,
        !(fall_back(state, failure).action is DbusCall),
    decreases state.remaining.len(), 0nat,
{
    if state.remaining.len() > 0 {
        let next = StateView {
            mechanism: state.remaining[0],
            remaining: state.remaining.drop_first(),
            status: None,
            ..record(state, failure)
        };
        lemma_begin(next);
    }
}

/// Every request starts well formed, on an action that is no success yet,
/// and needs at most 25 answers.
pub proof fn lemma_request_starts(
    env: Environment,
    operation: Operation,
    target: Seq<char>,
    program: Option<Seq<char>>,
)
    ensures
        well_formed(dispatch_model(env, operation, target, program).state),
        effort(dispatch_model(env, operation, target, program).state) <= 25,
        dispatch_model(env, operation, target, program).action != ActionView::Finish(Ok(())),
        dispatch_model(env, operation, target, program).state.env == env,
{
    lemma_start(env, Operation::Open, target, None);
    lemma_start(env, Operation::Reveal, target, None);
    lemma_start(env, Operation::OpenBrowser, target, program);
}

/// The first step of a strategy is well formed and within the budgets of the
/// strategy's mechanisms.
pub proof fn lemma_start(
    env: Environment,
    operation: Operation,
    target: Seq<char>,
    program: Option<Seq<char>>,
)
    ensures
        well_formed(begin(initial(env, operation, target, program)).state),
        effort(begin(initial(env, operation, target, program)).state) <= reserve(
            strategy_for(env, operation),
        ),
        reserve(strategy_for(env, operation)) <= 25,
        operation == Operation::Open ==> reserve(strategy_for(env, operation)) <= 10,
        begin(initial(env, operation, target, program)).action != ActionView::Finish(Ok(())),
        begin(initial(env, operation, target, program)).state.env == env,
{
    let list = strategy_for(env, operation);
    lemma_begin(initial(env, operation, target, program));
    reveal_with_fuel(reserve, 4);
    assert(list.drop_first().len() == list.len() - 1);
    if list.len() >= 2 {
        assert(list.drop_first()[0] == list[1]);
        assert(list.drop_first().drop_first().len() == list.len() - 2);
        if list.len() >= 3 {
            assert(list.drop_first().drop_first()[0] == list[2]);
            assert(list.drop_first().drop_first().drop_first().len() == 0);
        }
    }
}

/// Every step spends effort: from a state that is not finished, whatever is
/// reported, the next state needs fewer answers than the one before. So no
/// request goes on for ever, and none falls through without an outcome.
pub proof fn lemma_step_spends_effort(state: StateView, event: EventView)
    requires
        state.phase != Phase::Finished,
    ensures
        effort(transition(state, event).state) < effort(state),
{
    let failure = OpenErrorView::Io(failure_of(event));
    lemma_fall_back(state, failure);
    match state.phase {
        Phase::Executing => {
            if let EventView::ShellExecuted { instance, last_error } = event {
                lemma_fall_back(state, OpenErrorView::Io(os_failure(last_error)));
            }
        },
        Phase::Normalizing => {
            if let EventView::Path(path) = event {
                if wide_path(path) is Err {
                    lemma_fall_back(state, OpenErrorView::Io(wide_path(path)->Err_0));
                }
            }
        },
        Phase::Connecting => {
            let off = StateView { remaining: off_bus(state.remaining), ..state };
            lemma_off_bus_reserve(state.remaining);
            lemma_fall_back(off, failure);
        },
        Phase::Resolving => {
            if state.mechanism == Mechanism::OpenParent {
                if let EventView::Path(path) = event {
                    lemma_start(
                        state.env,
                        Operation::Open,
                        containing_directory(parent_of(path)),
                        None,
                    );
                }
            } else {
                let uri = uri_of(resolved(event));
                if uri is Err {
                    lemma_fall_back(state, uri->Err_0);
                }
            }
        },
        _ => {},
    }
}

/// A step ends the request exactly where it leaves the state finished.
pub proof fn lemma_finish_is_final(state: StateView, event: EventView)
    ensures
        transition(state, event).action is Finish <==> transition(state, event).state.phase
            == Phase::Finished,
{
    lemma_step_facts(state, event);
}

/// A step keeps a well-formed state well formed.
pub proof fn lemma_step_keeps_well_formed(state: StateView, event: EventView)
    requires
        well_formed(state),
    ensures
        well_formed(transition(state, event).state),
{
    lemma_step_facts(state, event);
}

/// No request succeeds on a failure: where a step ends the request with
/// success, the event that it answers reports that the last action did what
/// it was for. In particular a request whose every action fails, as for a
/// target that does not exist, ends in a failure.
pub proof fn lemma_success_needs_success(state: StateView, event: EventView)
    requires
        well_formed(state),
        transition(state, event).action == ActionView::Finish(Ok(())),
    ensures
        succeeded(event),
{
    lemma_step_facts(state, event);
}

/// A request is served in one environment: no step changes it.
pub proof fn lemma_step_keeps_environment(state: StateView, event: EventView)
    ensures
        transition(state, event).state.env == state.env,
{
    lemma_step_facts(state, event);
}

/// Nothing is sent to the file manager for a file that has no URI: where
/// the path cannot be resolved, or the resolved path cannot be written as a
/// URI, the step that follows makes no method call.
pub proof fn lemma_no_call_without_uri(state: StateView, event: EventView)
    requires
        state.phase == Phase::Resolving,
        state.mechanism == Mechanism::FileManager1,
        uri_of(resolved(event)) is Err,
    ensures
        !(transition(state, event).action is DbusCall),
{
    lemma_fall_back(state, uri_of(resolved(event))->Err_0);
}

/// The facts about one step that the laws above state one by one.
proof fn lemma_step_facts(state: StateView, event: EventView)
    ensures
        transition(state, event).action is Finish <==> transition(state, event).state.phase
            == Phase::Finished,
        well_formed(state) ==> well_formed(transition(state, event).state),
        well_formed(state) && transition(state, event).action == ActionView::Finish(Ok(()))
            ==> succeeded(event),
        transition(state, event).state.env == state.env,
{
    let failure = OpenErrorView::Io(failure_of(event));
    lemma_fall_back(state, failure);
    match state.phase {
        Phase::Executing => {
            if let EventView::ShellExecuted { instance, last_error } = event {
                lemma_fall_back(state, OpenErrorView::Io(os_failure(last_error)));
            }
        },
        Phase::Normalizing => {
            if let EventView::Path(path) = event {
                if wide_path(path) is Err {
                    lemma_fall_back(state, OpenErrorView::Io(wide_path(path)->Err_0));
                }
            }
        },
        Phase::Connecting => {
            let off = StateView { remaining: off_bus(state.remaining), ..state };
            lemma_fall_back(off, failure);
        },
        Phase::Resolving => {
            if state.mechanism == Mechanism::OpenParent {
                if let EventView::Path(path) = event {
                    lemma_start(
                        state.env,
                        Operation::Open,
                        containing_directory(parent_of(path)),
                        None,
                    );
                    lemma_begin(
                        initial(
                            state.env,
                            Operation::Open,
                            containing_directory(parent_of(path)),
                            None,
                        ),
                    );
                }
            } else {
                let uri = uri_of(resolved(event));
                if uri is Err {
                    lemma_fall_back(state, uri->Err_0);
                }
            }
        },
        _ => {},
    }
}

/// The failure that an answer to a call of the native shell stands for,
/// where the shell did not open the path: the error that the operating system
/// held after the call, or the failure of any other answer.
pub open spec fn attempt_failure(event: EventView) -> OpenErrorView {
    match event {
        EventView::ShellExecuted { instance, last_error } => OpenErrorView::Io(
            os_failure(last_error),
        ),
        _ => OpenErrorView::Io(failure_of(event)),
    }
}

/// The retry of the native shell reports the failure that it holds back:
/// whatever comes of normalizing the path and of the second call, the
/// request ends in success or in the failure of the first attempt.
pub proof fn lemma_retry_reports_first_failure(state: StateView, event: EventView)
    requires
        state.mechanism == Mechanism::ShellExecuteNormalized,
        state.phase == Phase::Normalizing || state.phase == Phase::Executing,
        state.first_failure is Some,
        state.remaining.len() == 0,
    ensures
        ({
            let next = transition(state, event);
            &&& next.action matches ActionView::Finish(Err(reported)) ==> reported
                == state.first_failure->0
            &&& next.action == ActionView::Finish(Ok(())) ==> state.phase == Phase::Executing
                && succeeded(event)
            &&& !(next.action is Finish) ==> {
                &&& next.action is ShellExecute
                &&& next.state.phase == Phase::Executing
                &&& next.state.mechanism == Mechanism::ShellExecuteNormalized
                &&& next.state.first_failure == state.first_failure
                &&& next.state.remaining.len() == 0
            }
        }),
{
    reveal_with_fuel(fall_back, 2);
}

/// Opening on native Windows reports the first failure. The shell is called
/// on the path as given; where that fails, the path is normalized and the
/// shell is called once more; and where the request then ends in a failure,
/// it is the failure of the first attempt, whatever went wrong later.
pub proof fn lemma_windows_open_reports_first_failure(
    target: Seq<char>,
    first: EventView,
    second: EventView,
    third: EventView,
)
    requires
        wide_path(target) is Ok,
        !succeeded(first),
    ensures
        ({
            let call = open_model(Environment::NativeWindows, target);
            let retry = transition(call.state, first);
            let second_call = transition(retry.state, second);
            let end = transition(second_call.state, third);
            &&& call.action == ActionView::ShellExecute(wide_path(target)->Ok_0)
            &&& retry.action == ActionView::Normalize(target)
            &&& second_call.action is ShellExecute || second_call.action == ActionView::Finish(
                Err(attempt_failure(first)),
            )
            &&& second_call.action is ShellExecute ==> end.action == ActionView::Finish(Ok(()))
                || end.action == ActionView::Finish(Err(attempt_failure(first)))
        }),
{
    let call = open_model(Environment::NativeWindows, target);
    let list = strategy_for(Environment::NativeWindows, Operation::Open);
    assert(list.drop_first() =~= seq![Mechanism::ShellExecuteNormalized]);
    assert(call.state.remaining.drop_first() =~= Seq::<Mechanism>::empty());
    reveal_with_fuel(fall_back, 2);
    let retry = transition(call.state, first);
    assert(retry.state.first_failure == Some(attempt_failure(first)));
    lemma_retry_reports_first_failure(retry.state, second);
    let second_call = transition(retry.state, second);
    if second_call.action is ShellExecute {
        lemma_retry_reports_first_failure(second_call.state, third);
    }
}

/// A path that cannot be handed to the native shell is rejected before the
/// first call, and that rejection is the first failure: the path is
/// normalized and the shell is called on the result; where the request then
/// ends in a failure, it is the rejection.
pub proof fn lemma_windows_open_reports_rejection(
    target: Seq<char>,
    second: EventView,
    third: EventView,
)
    requires
        wide_path(target) is Err,
    ensures
        ({
            let rejection = OpenErrorView::Io(wide_path(target)->Err_0);
            let retry = open_model(Environment::NativeWindows, target);
            let second_call = transition(retry.state, second);
            let end = transition(second_call.state, third);
            &&& retry.action == ActionView::Normalize(target)
            &&& second_call.action is ShellExecute || second_call.action == ActionView::Finish(
                Err(rejection),
            )
            &&& second_call.action is ShellExecute ==> end.action == ActionView::Finish(Ok(()))
                || end.action == ActionView::Finish(Err(rejection))
        }),
{
    let list = strategy_for(Environment::NativeWindows, Operation::Open);
    assert(list.drop_first() =~= seq![Mechanism::ShellExecuteNormalized]);
    assert(list.drop_first().drop_first() =~= Seq::<Mechanism>::empty());
    reveal_with_fuel(begin, 2);
    reveal_with_fuel(fall_back, 2);
    let retry = open_model(Environment::NativeWindows, target);
    assert(retry.state.first_failure == Some(OpenErrorView::Io(wide_path(target)->Err_0)));
    lemma_retry_reports_first_failure(retry.state, second);
    let second_call = transition(retry.state, second);
    if second_call.action is ShellExecute {
        lemma_retry_reports_first_failure(second_call.state, third);
    }
}

/// The opener script stands in for a desktop opener that is missing. Where
/// the desktop's own opener cannot be started, a shell is started on the
/// script; and where that shell ends with success the request succeeds: the
/// failure to start the first program is not reported.
pub proof fn lemma_script_stands_in(
    env: Environment,
    target: Seq<char>,
    missing: EventView,
    ended: EventView,
)
    requires
        env == Environment::LinuxDesktop || env == Environment::ContainerizedLinux,
        !(missing is Done),
        ended is Exited,
        succeeded(ended),
    ensures
        ({
            let system = open_model(env, target);
            let shell = transition(system.state, missing);
            let script = transition(shell.state, EventView::Done);
            let wait = transition(script.state, EventView::Done);
            let end = transition(wait.state, ended);
            &&& system.action == ActionView::Spawn(system_xdg_open(target))
            &&& shell.action == ActionView::Spawn(internal_xdg_open(target))
            &&& script.action == ActionView::WriteScript
            &&& wait.action == ActionView::Wait
            &&& end.action == ActionView::Finish(Ok(()))
        }),
{
    let system = open_model(env, target);
    let list = strategy_for(env, Operation::Open);
    assert(list.drop_first() =~= seq![Mechanism::XdgOpenScript]);
    assert(system.state.remaining.drop_first() =~= Seq::<Mechanism>::empty());
    reveal_with_fuel(fall_back, 2);
}

/// A request with a browser named starts that browser and no other program.
/// It first asks for nothing but the browser itself or the conversion of
/// the path; the program that it then starts is the one that was named; and
/// once that program runs, the request has succeeded, while a program that
/// cannot be started ends the request with that failure.
pub proof fn lemma_browser_is_the_named_program(
    env: Environment,
    name: Seq<char>,
    target: Seq<char>,
    converted: EventView,
    started: EventView,
)
    ensures
        ({
            let first = browser_model(env, Some(name), target);
            let spawn = if first.action is Capture {
                transition(first.state, converted)
            } else {
                first
            };
            let end = transition(spawn.state, started);
            &&& first.action is Capture || first.action is Spawn
            &&& spawn.action matches ActionView::Spawn(program) && program.program == name
            &&& started is Done ==> end.action == ActionView::Finish(Ok(()))
            &&& !(started is Done) ==> end.action == ActionView::Finish(
                Err(OpenErrorView::Io(failure_of(started))),
            )
        }),
{
    let list = strategy_for(env, Operation::OpenBrowser);
    assert(list.drop_first() =~= Seq::<Mechanism>::empty());
    reveal_with_fuel(fall_back, 2);
}

/// The native calls of the worker are undone in their order. Unless the
/// worker itself is lost, no answer ends the request while the worker is in
/// the component apartment: an item list that was built is released, the
/// apartment is left, and the worker is joined, whether the calls in between
/// succeeded or failed.
pub proof fn lemma_worker_cleans_up(state: StateView, event: EventView)
    requires
        !(event is WorkerPanicked),
    ensures
        ({
            let next = transition(state, event);
            &&& state.phase == Phase::Initializing ==> (next.action is Normalize && next.state.phase
                == Phase::Normalizing) || (next.action == ActionView::JoinWorker
                && next.state.phase == Phase::Joining)
            &&& state.phase == Phase::Normalizing && state.mechanism == Mechanism::ComReveal ==> (
            next.action is CreateItemList && next.state.phase == Phase::CreatingList) || (
            next.action == ActionView::ComUninitialize && next.state.phase
                == Phase::Uninitializing)
            &&& state.phase == Phase::CreatingList ==> (next.action == ActionView::SelectItem
                && next.state.phase == Phase::Selecting) || (next.action
                == ActionView::ComUninitialize && next.state.phase == Phase::Uninitializing)
            &&& state.phase == Phase::Selecting ==> next.action == ActionView::FreeItemList
                && next.state.phase == Phase::Releasing
            &&& state.phase == Phase::Releasing ==> next.action == ActionView::ComUninitialize
                && next.state.phase == Phase::Uninitializing
            &&& state.phase == Phase::Uninitializing ==> next.action == ActionView::JoinWorker
                && next.state.phase == Phase::Joining
        }),
{
}

/// A failure of the worker's native calls is what the request ends in: once
/// a failure is held back, the steps that undo the calls keep it, and joining
/// the worker reports it.
pub proof fn lemma_worker_reports_its_failure(state: StateView, event: EventView)
    requires
        state.first_failure is Some,
        state.phase == Phase::Releasing || state.phase == Phase::Uninitializing || state.phase
            == Phase::Joining,
        !(event is WorkerPanicked),
    ensures
        ({
            let next = transition(state, event);
            &&& !(next.action is Finish) ==> next.state.first_failure == state.first_failure
            &&& next.action is Finish ==> next.action is Finish && next.action->Finish_0 is Err
            &&& next.action is Finish && event is Done ==> next.action == ActionView::Finish(
                Err(state.first_failure->0),
            )
        }),
{
}

/// Two states that differ at most in the failure that they hold back.
pub open spec fn alike(one: StateView, other: StateView) -> bool {
    other == (StateView { first_failure: other.first_failure, ..one })
}

/// No mechanism that waits is the retry of the native shell.
pub open spec fn no_retry_waits(remaining: Seq<Mechanism>) -> bool {
    forall|i: int|
        0 <= i < remaining.len() ==> #[trigger] remaining[i] != Mechanism::ShellExecuteNormalized
}

/// Taking the mechanisms of the session bus off the front adds no retry.
pub proof fn lemma_off_bus_no_retry(remaining: Seq<Mechanism>)
    requires
        no_retry_waits(remaining),
    ensures
        no_retry_waits(off_bus(remaining)),
    decreases remaining.len(),
{
    if remaining.len() > 0 && uses_bus(remaining[0]) {
        let rest = remaining.drop_first();
        assert forall|i: int| 0 <= i < rest.len() implies #[trigger] rest[i]
            != Mechanism::ShellExecuteNormalized by {
            assert(rest[i] == remaining[i + 1]);
        }
        lemma_off_bus_no_retry(rest);
    }
}

/// The first steps of two states that are alike ask for the same and leave
/// states that are alike, where the retry of the native shell is not in
/// play.
pub proof fn lemma_begin_alike(one: StateView, other: StateView)
    requires
        alike(one, other),
        one.mechanism != Mechanism::ShellExecuteNormalized,
        no_retry_waits(one.remaining),
    ensures
        begin(one).action == begin(other).action,
        alike(begin(one).state, begin(other).state),
    decreases one.remaining.len(), 1nat,
{
    if one.mechanism == Mechanism::ShellExecute && wide_path(one.target) is Err {
        lemma_fall_back_alike(one, other, OpenErrorView::Io(wide_path(one.target)->Err_0));
    }
}

/// The steps that let the next mechanism in ask for the same in two states
/// that are alike, and leave states that are alike, where the retry of the
/// native shell is not in play.
pub proof fn lemma_fall_back_alike(one: StateView, other: StateView, failure: OpenErrorView)
    requires
        alike(one, other),
        one.mechanism != Mechanism::ShellExecuteNormalized,
        no_retry_waits(one.remaining),
    ensures
        fall_back(one, failure).action == fall_back(other, failure).action,
        alike(fall_back(one, failure).state, fall_back(other, failure).state),
    decreases one.remaining.len(), 0nat,
{
    if one.remaining.len() > 0 {
        let next_one = StateView {
            mechanism: one.remaining[0],
            remaining: one.remaining.drop_first(),
            status: None,
            ..record(one, failure)
        };
        let next_other = StateView {
            mechanism: other.remaining[0],
            remaining: other.remaining.drop_first(),
            status: None,
            ..record(other, failure)
        };
        let rest = one.remaining.drop_first();
        assert forall|i: int| 0 <= i < rest.len() implies #[trigger] rest[i]
            != Mechanism::ShellExecuteNormalized by {
            assert(rest[i] == one.remaining[i + 1]);
        }
        lemma_begin_alike(next_one, next_other);
    }
}

/// Outside the retry of the native shell and the joining of the worker, the
/// failure that is held back is never the one reported: a step asks for the
/// same whatever failure the state holds. So where mechanisms were tried in
/// turn, the request ends in the failure of the last one tried.
pub proof fn lemma_held_failure_stays_back(
    state: StateView,
    held: Option<OpenErrorView>,
    event: EventView,
)
    requires
        state.mechanism != Mechanism::ShellExecuteNormalized,
        no_retry_waits(state.remaining),
        state.phase != Phase::Joining,
    ensures
        transition(state, event).action == transition(
            StateView { first_failure: held, ..state },
            event,
        ).action,
{
    let other = StateView { first_failure: held, ..state };
    let failure = OpenErrorView::Io(failure_of(event));
    lemma_fall_back_alike(state, other, failure);
    match state.phase {
        Phase::Executing => {
            lemma_fall_back_alike(state, other, attempt_failure(event));
        },
        Phase::Normalizing => {
            if let EventView::Path(path) = event {
                if wide_path(path) is Err {
                    lemma_fall_back_alike(
                        state,
                        other,
                        OpenErrorView::Io(wide_path(path)->Err_0),
                    );
                }
            }
        },
        Phase::Connecting => {
            let off_one = StateView { remaining: off_bus(state.remaining), ..state };
            let off_other = StateView { remaining: off_bus(other.remaining), ..other };
            lemma_off_bus_no_retry(state.remaining);
            lemma_fall_back_alike(off_one, off_other, failure);
        },
        Phase::Resolving => {
            if state.mechanism != Mechanism::OpenParent {
                let uri = uri_of(resolved(event));
                if uri is Err {
                    lemma_fall_back_alike(state, other, uri->Err_0);
                }
            }
        },
        _ => {},
    }
}

/// A mechanism whose program is waited for.
pub open spec fn waited_launcher(mechanism: Mechanism) -> bool {
    ||| mechanism == Mechanism::MacOpen
    ||| mechanism == Mechanism::MacReveal
    ||| mechanism == Mechanism::WslView
    ||| mechanism == Mechanism::XdgOpen
    ||| mechanism == Mechanism::XdgOpenScript
}

/// The streams of a program are used as they are set up: the error stream of
/// a program that is waited for is read exactly where it is piped, and the
/// script is written exactly to the program whose input is piped.
pub proof fn lemma_streams_fit(
    mechanism: Mechanism,
    target: Seq<char>,
    program: Option<Seq<char>>,
    converted: Option<Seq<char>>,
)
    requires
        waited_launcher(mechanism),
    ensures
        pipes_stderr(mechanism) <==> invocation_for(mechanism, target, program, converted).stderr
            == Stdio::Piped,
        feeds_script(mechanism) <==> invocation_for(mechanism, target, program, converted).stdin
            == Stdio::Piped,
{
}

/// A program that was started is the outcome: once the program of a
/// mechanism runs, no other mechanism is tried, whatever the program ends in.
/// The request goes on with the same mechanism or ends.
pub proof fn lemma_started_program_is_final(state: StateView, event: EventView)
    requires
        state.phase == Phase::Feeding || state.phase == Phase::Waiting || state.phase
            == Phase::Collecting,
    ensures
        ({
            let next = transition(state, event);
            &&& next.state.mechanism == state.mechanism
            &&& next.state.remaining == state.remaining
            &&& next.action is Finish || next.action == ActionView::Wait || next.action
                == ActionView::ReadStderr
        }),
{
}

/// In `list`, `mechanism` stands at `at`, and `remaining` is what stands
/// from the later position `rest` on.
pub open spec fn placed(
    list: Seq<Mechanism>,
    at: int,
    rest: int,
    mechanism: Mechanism,
    remaining: Seq<Mechanism>,
) -> bool {
    &&& 0 <= at < rest <= list.len()
    &&& list[at] == mechanism
    &&& remaining == list.skip(rest)
}

/// The state follows the strategy table: its mechanism is one of those that
/// the table has for some operation in the state's environment, and the
/// mechanisms that wait are the ones that the table has behind it, from some
/// point on and in the table's order.
pub open spec fn on_strategy(state: StateView) -> bool {
    exists|operation: Operation, at: int, rest: int|
        placed(
            strategy_for(state.env, operation),
            at,
            rest,
            state.mechanism,
            state.remaining,
        )
}

/// Taking the mechanisms of the session bus off the front of what waits
/// leaves what the list has from a later point on.
pub proof fn lemma_off_bus_placed(
    list: Seq<Mechanism>,
    at: int,
    rest: int,
    mechanism: Mechanism,
    remaining: Seq<Mechanism>,
)
    requires
        placed(list, at, rest, mechanism, remaining),
    ensures
        exists|later: int| placed(list, at, later, mechanism, off_bus(remaining)),
    decreases remaining.len(),
{
    if remaining.len() > 0 && uses_bus(remaining[0]) {
        let behind = remaining.drop_first();
        assert(remaining.len() == list.len() - rest);
        assert(behind =~= list.skip(rest + 1));
        lemma_off_bus_placed(list, at, rest + 1, mechanism, behind);
        let later = choose|later: int| placed(list, at, later, mechanism, off_bus(behind));
        assert(placed(list, at, later, mechanism, off_bus(remaining)));
    } else {
        assert(placed(list, at, rest, mechanism, off_bus(remaining)));
    }
}

/// The first step of a mechanism keeps to the strategy table.
pub proof fn lemma_begin_on_strategy(state: StateView)
    requires
        on_strategy(state),
    ensures
        on_strategy(begin(state).state),
    decreases state.remaining.len(), 1nat,
{
    let (operation, at, rest) = choose|operation: Operation, at: int, rest: int|
        placed(strategy_for(state.env, operation), at, rest, state.mechanism, state.remaining);
    let list = strategy_for(state.env, operation);
    if state.mechanism == Mechanism::ShellExecute && wide_path(state.target) is Err {
        lemma_fall_back_on_strategy(state, OpenErrorView::Io(wide_path(state.target)->Err_0));
    } else {
        let next = begin(state).state;
        assert(placed(list, at, rest, next.mechanism, next.remaining));
    }
}

/// The step that lets the next mechanism in keeps to the strategy table.
pub proof fn lemma_fall_back_on_strategy(state: StateView, failure: OpenErrorView)
    requires
        on_strategy(state),
    ensures
        on_strategy(fall_back(state, failure).state),
    decreases state.remaining.len(), 0nat,
{
    let (operation, at, rest) = choose|operation: Operation, at: int, rest: int|
        placed(strategy_for(state.env, operation), at, rest, state.mechanism, state.remaining);
    let list = strategy_for(state.env, operation);
    if state.remaining.len() > 0 {
        let next = StateView {
            mechanism: state.remaining[0],
            remaining: state.remaining.drop_first(),
            status: None,
            ..record(state, failure)
        };
        assert(next.remaining =~= list.skip(rest + 1));
        assert(placed(list, rest, rest + 1, next.mechanism, next.remaining));
        lemma_begin_on_strategy(next);
    } else {
        let end = fall_back(state, failure).state;
        assert(placed(list, at, rest, end.mechanism, end.remaining));
    }
}

/// Every request starts on the strategy table.
pub proof fn lemma_request_on_strategy(
    env: Environment,
    operation: Operation,
    target: Seq<char>,
    program: Option<Seq<char>>,
)
    ensures
        on_strategy(dispatch_model(env, operation, target, program).state),
{
    lemma_start_on_strategy(env, Operation::Open, target, None);
    lemma_start_on_strategy(env, Operation::Reveal, target, None);
    lemma_start_on_strategy(env, Operation::OpenBrowser, target, program);
}

/// The first step of a strategy is on the strategy table.
pub proof fn lemma_start_on_strategy(
    env: Environment,
    operation: Operation,
    target: Seq<char>,
    program: Option<Seq<char>>,
)
    ensures
        on_strategy(begin(initial(env, operation, target, program)).state),
{
    let list = strategy_for(env, operation);
    let first = initial(env, operation, target, program);
    lemma_strategy_total(env, operation);
    assert(first.remaining =~= list.skip(1));
    assert(placed(list, 0, 1, first.mechanism, first.remaining));
    lemma_begin_on_strategy(first);
}

/// Every step keeps to the strategy table: the dispatcher tries no mechanism
/// that the table does not have for the environment, and none out of the
/// table's order.
pub proof fn lemma_step_stays_on_strategy(state: StateView, event: EventView)
    requires
        on_strategy(state),
    ensures
        on_strategy(transition(state, event).state),
{
    let (operation, at, rest) = choose|operation: Operation, at: int, rest: int|
        placed(strategy_for(state.env, operation), at, rest, state.mechanism, state.remaining);
    let list = strategy_for(state.env, operation);
    let failure = OpenErrorView::Io(failure_of(event));
    let next = transition(state, event).state;
    lemma_fall_back_on_strategy(state, failure);
    match state.phase {
        Phase::Executing => {
            lemma_fall_back_on_strategy(state, attempt_failure(event));
        },
        Phase::Normalizing => {
            if let EventView::Path(path) = event {
                if wide_path(path) is Err {
                    lemma_fall_back_on_strategy(
                        state,
                        OpenErrorView::Io(wide_path(path)->Err_0),
                    );
                }
            }
        },
        Phase::Connecting => {
            let off = StateView { remaining: off_bus(state.remaining), ..state };
            lemma_off_bus_placed(list, at, rest, state.mechanism, state.remaining);
            let later = choose|later: int|
                placed(list, at, later, state.mechanism, off_bus(state.remaining));
            assert(placed(list, at, later, off.mechanism, off.remaining));
            lemma_fall_back_on_strategy(off, failure);
        },
        Phase::Resolving => {
            if state.mechanism == Mechanism::OpenParent {
                if let EventView::Path(path) = event {
                    lemma_start_on_strategy(
                        state.env,
                        Operation::Open,
                        containing_directory(parent_of(path)),
                        None,
                    );
                }
            } else {
                let uri = uri_of(resolved(event));
                if uri is Err {
                    lemma_fall_back_on_strategy(state, uri->Err_0);
                }
            }
        },
        _ => {},
    }
    if next.mechanism == state.mechanism && next.remaining == state.remaining {
        assert(placed(list, at, rest, next.mechanism, next.remaining));
    }
}

} // verus!
