//! The persisted records as a run of the machine changes them, and what
//! holds of every run.

use crate::controller::{
    answers, finish, follow, host_work, lemma_host_work_decreases, next, plan_output, settles,
    start_step, stop_step, ActionView, EventView, Failure, OutcomeView, PhaseView,
    StartRequestView, StepView, ARTIFACT_POLLS, EXIT_POLLS,
};
use crate::session::{reconciled, SessionStateView, SessionView};
use vstd::prelude::*;

verus! {

/// A run at rest: the step whose action is still to be answered, and the
/// session as it is persisted.
pub struct Standing {
    pub step: StepView,
    pub store: SessionView,
}

/// `answer` is an answer that the caller or the host can give to `action`
/// while `store` is persisted: a read gives what is persisted, clearing
/// never fails, and every other action gets an answer of its kind.
pub open spec fn honest(store: SessionView, action: ActionView, answer: EventView) -> bool {
    match action {
        ActionView::LoadSession => answer == EventView::Loaded(store),
        ActionView::ClearSession => answer is Done,
        ActionView::EnsureDirectory(_) => answer is Done || answer is Failed,
        ActionView::ProbeSource(_) => answer is Probed,
        ActionView::SaveOutputPath(_) => answer is Done || answer is Failed,
        ActionView::Launch(_) => answer is Launched || answer is Failed,
        ActionView::SavePid(_) => answer is Done || answer is Failed,
        ActionView::Sleep(_) => answer is Done,
        ActionView::CheckArtifact(_) => answer is Artifact,
        ActionView::Finish(_) => false,
        _ => answers(action, answer),
    }
}

/// What is persisted once `action` has been answered: an action that was
/// performed on the records has changed them, and nothing else has.
pub open spec fn store_after(store: SessionView, action: ActionView, answer: EventView) -> SessionView {
    if answer is Done {
        match action {
            ActionView::ClearSession => SessionView::empty(),
            ActionView::SaveOutputPath(path) => SessionView {
                process_id: store.process_id,
                output_path: Some(path),
            },
            ActionView::SavePid(pid) => SessionView {
                process_id: Some(pid),
                output_path: store.output_path,
            },
            _ => store,
        }
    } else {
        store
    }
}

/// Where a run stands once the pending action has been answered.
pub open spec fn after(from: Standing, answer: EventView) -> Standing {
    Standing {
        step: follow(from.step, answer),
        store: store_after(from.store, from.step.action, answer),
    }
}

/// Where a run stands after a sequence of answers.
pub open spec fn reached(from: Standing, replies: Seq<EventView>) -> Standing
    decreases replies.len(),
{
    if replies.len() == 0 {
        from
    } else {
        reached(after(from, replies[0]), replies.drop_first())
    }
}

/// Every answer of the sequence is an honest one at its turn.
pub open spec fn honest_run(from: Standing, replies: Seq<EventView>) -> bool
    decreases replies.len(),
{
    replies.len() == 0 || (honest(from.store, from.step.action, replies[0]) && honest_run(
        after(from, replies[0]),
        replies.drop_first(),
    ))
}

/// What the machine settles into when it asks the host by itself is a
/// stretch of an honest run: the answers that led there are honest ones, and
/// they leave what is persisted as it was.
pub proof fn lemma_settling_is_an_honest_run(step: StepView, end: StepView, store: SessionView)
    requires
        settles(step, end),
    ensures
        exists|replies: Seq<EventView>| #[trigger]
            honest_run(Standing { step, store }, replies) && reached(
                Standing { step, store },
                replies,
            ) == (Standing { step: end, store }),
    decreases host_work(step),
{
    let from = Standing { step, store };
    if step.action.for_caller() {
        let none = Seq::<EventView>::empty();
        assert(honest_run(from, none) && reached(from, none) == (Standing { step: end, store }));
    } else {
        let answer = choose|answer: EventView| #[trigger]
            answers(step.action, answer) && settles(follow(step, answer), end);
        lemma_host_work_decreases(step, answer);
        lemma_settling_is_an_honest_run(follow(step, answer), end, store);
        let rest = choose|replies: Seq<EventView>| #[trigger]
            honest_run(Standing { step: follow(step, answer), store }, replies) && reached(
                Standing { step: follow(step, answer), store },
                replies,
            ) == (Standing { step: end, store });
        let replies = seq![answer] + rest;
        assert(replies[0] == answer);
        assert(replies.drop_first() == rest);
        assert(after(from, answer) == (Standing { step: follow(step, answer), store }));
        assert(honest_run(from, replies) && reached(from, replies) == (Standing {
            step: end,
            store,
        }));
    }
}

/// The action is the one that the phase waits on.
pub open spec fn pending(phase: PhaseView, action: ActionView) -> bool {
    match phase {
        PhaseView::StartLoading { .. } => action is LoadSession,
        PhaseView::StartProbing { .. } => action is ProbeProcess,
        PhaseView::StartRepairing { .. } => action is ClearSession,
        PhaseView::StartHome { .. } => action is AskHome,
        PhaseView::StartStamp { .. } => action is AskStamp,
        PhaseView::StartDirectory { .. } => action is EnsureDirectory,
        PhaseView::StartSizing { .. } => action is ProbeSource,
        PhaseView::StartRecordingPath { path, .. } => action == ActionView::SaveOutputPath(path),
        PhaseView::StartLaunching { .. } => action is Launch,
        PhaseView::StartGrace { .. } => action is Sleep,
        PhaseView::StartConfirming { pid, .. } => action == ActionView::ProbeProcess(pid),
        PhaseView::StartRecordingPid { .. } => action is SavePid,
        PhaseView::StartAborting => action is ClearSession,
        PhaseView::StopLoading => action is LoadSession,
        PhaseView::StopSignalling { pid, .. } => action == ActionView::SignalProcess(pid),
        PhaseView::StopProbing { pid, .. } => action == ActionView::ProbeProcess(pid),
        PhaseView::StopWaiting { .. } => action is Sleep,
        PhaseView::StopClearing { .. } => action is ClearSession,
        PhaseView::StopChecking { path, .. } => action == ActionView::CheckArtifact(path),
        PhaseView::StopSettling { .. } => action is Sleep,
        PhaseView::Finished => action is Finish,
    }
}

/// Every step of the machine names the action that its phase waits on.
pub proof fn lemma_next_is_pending(phase: PhaseView, event: EventView)
    ensures
        pending(next(phase, event).phase, next(phase, event).action),
{
}

/// The process that a phase holds is one that can be signalled alone.
pub open spec fn names_one_process(phase: PhaseView) -> bool {
    match phase {
        PhaseView::StartGrace { pid, .. } => pid > 0,
        PhaseView::StartConfirming { pid, .. } => pid > 0,
        PhaseView::StopSignalling { pid, .. } => pid > 0,
        PhaseView::StopProbing { pid, .. } => pid > 0,
        PhaseView::StopWaiting { pid, .. } => pid > 0,
        _ => true,
    }
}

/// The machine keeps to single processes: it never asks to signal a process
/// group, and never persists an id that names none.
pub proof fn lemma_next_names_one_process(phase: PhaseView, event: EventView)
    requires
        names_one_process(phase),
    ensures
        names_one_process(next(phase, event).phase),
        next(phase, event).action matches ActionView::SignalProcess(pid) ==> pid > 0,
        next(phase, event).action matches ActionView::SavePid(pid) ==> pid > 0,
{
}

/// Where a `start` begins while `store` is persisted.
pub open spec fn starting(request: StartRequestView, store: SessionView) -> Standing {
    Standing { step: start_step(request), store }
}

/// Where a `stop` begins while `store` is persisted.
pub open spec fn stopping(store: SessionView) -> Standing {
    Standing { step: stop_step(), store }
}

/// What holds wherever an honest run of `start` stands: once the launch is
/// under way the output path is persisted, a process id is persisted only
/// at a successful end, and nothing is persisted after a launch that failed
/// at once.
pub open spec fn start_invariant(at: Standing) -> bool {
    &&& pending(at.step.phase, at.step.action)
    &&& names_one_process(at.step.phase)
    &&& match at.step.phase {
        PhaseView::StartLoading { .. } => true,
        PhaseView::StartProbing { .. } => true,
        PhaseView::StartRepairing { .. } => true,
        PhaseView::StartHome { .. } => true,
        PhaseView::StartStamp { .. } => true,
        PhaseView::StartDirectory { .. } => true,
        PhaseView::StartSizing { .. } => true,
        PhaseView::StartRecordingPath { .. } => true,
        PhaseView::StartLaunching { path } => at.store.output_path == Some(path),
        PhaseView::StartGrace { path, .. } => at.store.output_path == Some(path),
        PhaseView::StartConfirming { path, .. } => at.store.output_path == Some(path),
        PhaseView::StartRecordingPid { path } => at.store.output_path == Some(path) && (
        at.step.action matches ActionView::SavePid(pid) && pid > 0),
        PhaseView::StartAborting => true,
        PhaseView::Finished => match at.step.action {
            ActionView::Finish(OutcomeView::AlreadyRunning) => true,
            ActionView::Finish(OutcomeView::Started { output_path }) => at.store.output_path
                == Some(output_path) && at.store.process() is Some,
            ActionView::Finish(OutcomeView::ImmediateExit) => at.store == SessionView::empty(),
            ActionView::Finish(OutcomeView::Failed(failure)) => failure != Failure::Unexpected,
            _ => false,
        },
        _ => false,
    }
}

/// An honest answer keeps the invariant of `start`.
pub proof fn lemma_start_step(at: Standing, answer: EventView)
    requires
        start_invariant(at),
        honest(at.store, at.step.action, answer),
    ensures
        start_invariant(after(at, answer)),
{
}

/// The invariant of `start` holds wherever an honest run of it stands.
pub proof fn lemma_start_run(request: StartRequestView, store: SessionView, replies: Seq<EventView>)
    requires
        honest_run(starting(request, store), replies),
    ensures
        start_invariant(reached(starting(request, store), replies)),
{
    lemma_run_keeps_start_invariant(starting(request, store), replies);
}

/// An honest run that begins where the invariant of `start` holds ends
/// where it holds.
pub proof fn lemma_run_keeps_start_invariant(from: Standing, replies: Seq<EventView>)
    requires
        start_invariant(from),
        honest_run(from, replies),
    ensures
        start_invariant(reached(from, replies)),
    decreases replies.len(),
{
    if replies.len() > 0 {
        lemma_start_step(from, replies[0]);
        lemma_run_keeps_start_invariant(after(from, replies[0]), replies.drop_first());
    }
}

/// Sessions stay whole: when the persisted session names an output file
/// wherever it names a process, it still does after any honest run of
/// `start`.
pub proof fn law_start_keeps_sessions_whole(
    request: StartRequestView,
    before: SessionView,
    replies: Seq<EventView>,
)
    requires
        before.whole(),
        honest_run(starting(request, before), replies),
    ensures
        reached(starting(request, before), replies).store.whole(),
{
    lemma_run_keeps_whole(starting(request, before), replies);
}

/// An honest run that begins where the invariant of `start` holds, on a
/// whole session, ends on a whole session.
pub proof fn lemma_run_keeps_whole(from: Standing, replies: Seq<EventView>)
    requires
        start_invariant(from),
        from.store.whole(),
        honest_run(from, replies),
    ensures
        reached(from, replies).store.whole(),
    decreases replies.len(),
{
    if replies.len() > 0 {
        lemma_start_step(from, replies[0]);
        lemma_run_keeps_whole(after(from, replies[0]), replies.drop_first());
    }
}

/// What holds wherever an honest run of `stop` stands, begun on a session
/// whose output path is `path`: the path is carried along, the records are
/// cleared before the output file is looked for, and the run ends with the
/// path or in doubt.
pub open spec fn stop_invariant(at: Standing, path: Seq<char>) -> bool {
    &&& pending(at.step.phase, at.step.action)
    &&& names_one_process(at.step.phase)
    &&& match at.step.phase {
        PhaseView::StopLoading => at.store.process() is Some && at.store.output_path == Some(path),
        PhaseView::StopSignalling { path: held, .. } => held == path,
        PhaseView::StopProbing { path: held, .. } => held == path,
        PhaseView::StopWaiting { path: held, .. } => held == path,
        PhaseView::StopClearing { path: held } => held == path,
        PhaseView::StopChecking { path: held, .. } => held == path && at.store
            == SessionView::empty(),
        PhaseView::StopSettling { path: held, .. } => held == path && at.store
            == SessionView::empty(),
        PhaseView::Finished => at.store == SessionView::empty() && (at.step.action
            == ActionView::Finish(OutcomeView::Stopped { output_path: path }) || at.step.action
            == ActionView::Finish(OutcomeView::StopUncertain)),
        _ => false,
    }
}

/// An honest answer keeps the invariant of `stop`.
pub proof fn lemma_stop_step(at: Standing, path: Seq<char>, answer: EventView)
    requires
        stop_invariant(at, path),
        honest(at.store, at.step.action, answer),
    ensures
        stop_invariant(after(at, answer), path),
{
}

/// An honest run that begins where the invariant of `stop` holds ends where
/// it holds.
pub proof fn lemma_run_keeps_stop_invariant(from: Standing, path: Seq<char>, replies: Seq<EventView>)
    requires
        stop_invariant(from, path),
        honest_run(from, replies),
    ensures
        stop_invariant(reached(from, replies), path),
    decreases replies.len(),
{
    if replies.len() > 0 {
        lemma_stop_step(from, path, replies[0]);
        lemma_run_keeps_stop_invariant(after(from, replies[0]), path, replies.drop_first());
    }
}

/// Starting twice is idempotent: when a `start` has succeeded and its
/// process is alive, a second `start` reads the session, asks after that
/// process, ends as `AlreadyRunning` and leaves what is persisted, the
/// first session's output path with it, as it was.
pub proof fn law_start_twice(
    first: StartRequestView,
    before: SessionView,
    replies: Seq<EventView>,
    second: StartRequestView,
)
    requires
        honest_run(starting(first, before), replies),
    ensures
        reached(starting(first, before), replies).step.action matches ActionView::Finish(
            OutcomeView::Started { output_path },
        ) ==> {
            let session = reached(starting(first, before), replies).store;
            let asked = after(starting(second, session), EventView::Loaded(session));
            let again = after(asked, EventView::Alive(true));
            &&& session.output_path == Some(output_path)
            &&& session.process() is Some
            &&& asked.step.action == ActionView::ProbeProcess(session.process()->0)
            &&& asked.store == session
            &&& again == Standing { step: finish(OutcomeView::AlreadyRunning), store: session }
        },
{
    lemma_start_run(first, before, replies);
    let session = reached(starting(first, before), replies).store;
    let asked = after(starting(second, session), EventView::Loaded(session));
    let again = after(asked, EventView::Alive(true));
    assert(again.step.log =~= Seq::<Seq<char>>::empty());
}

/// A stale session is repaired, not merged: when the persisted process is
/// not alive, `start` clears the records and then stands exactly where a
/// `start` on no session at all stands after reading it.
pub proof fn law_stale_session_is_discarded(request: StartRequestView, stale: SessionView)
    requires
        stale.process() is Some,
    ensures
        ({
            let asked = after(starting(request, stale), EventView::Loaded(stale));
            let clearing = after(asked, EventView::Alive(false));
            let fresh = after(
                starting(request, SessionView::empty()),
                EventView::Loaded(SessionView::empty()),
            );
            &&& asked.step.action == ActionView::ProbeProcess(stale.process()->0)
            &&& clearing.step.action == ActionView::ClearSession
            &&& clearing.store == stale
            &&& after(clearing, EventView::Done) == fresh
            &&& fresh.step == plan_output(request)
            &&& fresh.store == SessionView::empty()
        }),
{
    let asked = after(starting(request, stale), EventView::Loaded(stale));
    let clearing = after(asked, EventView::Alive(false));
    let fresh = after(
        starting(request, SessionView::empty()),
        EventView::Loaded(SessionView::empty()),
    );
    assert(fresh.step.log =~= Seq::<Seq<char>>::empty());
    assert(after(clearing, EventView::Done).step.log =~= Seq::<Seq<char>>::empty());
}

/// Stopping when idle does nothing: on a session that names no process,
/// `stop` ends as `NotRunning` right after reading it, with nothing to log
/// and what is persisted as it was.
pub proof fn law_stop_when_idle(store: SessionView)
    requires
        store.process() is None,
    ensures
        after(stopping(store), EventView::Loaded(store)) == (Standing {
            step: finish(OutcomeView::NotRunning),
            store,
        }),
{
    assert(after(stopping(store), EventView::Loaded(store)).step.log =~= Seq::<Seq<char>>::empty());
}

/// Stopping after a successful start: however the host and the caller
/// answer, the `stop` ends with the records cleared, and it reports either
/// the very output path that the `start` reported or that the stop is in
/// doubt.
pub proof fn law_stop_after_start(
    request: StartRequestView,
    before: SessionView,
    replies: Seq<EventView>,
    stop_replies: Seq<EventView>,
)
    requires
        honest_run(starting(request, before), replies),
        honest_run(stopping(reached(starting(request, before), replies).store), stop_replies),
    ensures
        reached(starting(request, before), replies).step.action matches ActionView::Finish(
            OutcomeView::Started { output_path },
        ) ==> {
            let session = reached(starting(request, before), replies).store;
            let end = reached(stopping(session), stop_replies);
            end.step.action is Finish ==> {
                &&& end.store == SessionView::empty()
                &&& end.step.action == ActionView::Finish(OutcomeView::Stopped { output_path })
                    || end.step.action == ActionView::Finish(OutcomeView::StopUncertain)
            }
        },
{
    lemma_start_run(request, before, replies);
    let started = reached(starting(request, before), replies);
    if let ActionView::Finish(OutcomeView::Started { output_path }) = started.step.action {
        lemma_run_keeps_stop_invariant(stopping(started.store), output_path, stop_replies);
    }
}

/// A launch that fails at once leaves no session: when `start` ends as
/// `ImmediateExit`, nothing is persisted, so the session is idle whatever
/// the host says of any process.
pub proof fn law_immediate_exit_leaves_idle(
    request: StartRequestView,
    before: SessionView,
    replies: Seq<EventView>,
    alive: bool,
)
    requires
        honest_run(starting(request, before), replies),
        reached(starting(request, before), replies).step.action == ActionView::Finish(
            OutcomeView::ImmediateExit,
        ),
    ensures
        reached(starting(request, before), replies).store == SessionView::empty(),
        reconciled(reached(starting(request, before), replies).store, alive)
            == SessionStateView::Idle,
{
    lemma_start_run(request, before, replies);
}

/// Start, then status: when `start` has succeeded and its process is alive,
/// the persisted session is one that is recording, with the very output
/// path that the `start` reported.
pub proof fn law_status_after_start(
    request: StartRequestView,
    before: SessionView,
    replies: Seq<EventView>,
)
    requires
        honest_run(starting(request, before), replies),
    ensures
        reached(starting(request, before), replies).step.action matches ActionView::Finish(
            OutcomeView::Started { output_path },
        ) ==> {
            let session = reached(starting(request, before), replies).store;
            &&& session.process() is Some
            &&& reconciled(session, true) == SessionStateView::Recording {
                process_id: session.process()->0,
                output_path: Some(output_path),
            }
        },
{
    lemma_start_run(request, before, replies);
}

/// How many answers a run can still take from a phase on, at most.
pub open spec fn budget(phase: PhaseView) -> nat {
    match phase {
        PhaseView::StartLoading { .. } => 13,
        PhaseView::StartProbing { .. } => 12,
        PhaseView::StartRepairing { .. } => 11,
        PhaseView::StartHome { .. } => 10,
        PhaseView::StartStamp { .. } => 9,
        PhaseView::StartDirectory { .. } => 8,
        PhaseView::StartSizing { .. } => 7,
        PhaseView::StartRecordingPath { .. } => 6,
        PhaseView::StartLaunching { .. } => 5,
        PhaseView::StartGrace { .. } => 4,
        PhaseView::StartConfirming { .. } => 3,
        PhaseView::StartRecordingPid { .. } => 1,
        PhaseView::StartAborting => 1,
        PhaseView::StopLoading => 2 * EXIT_POLLS as nat + 2 * ARTIFACT_POLLS as nat + 5,
        PhaseView::StopSignalling { .. } => 2 * EXIT_POLLS as nat + 2 * ARTIFACT_POLLS as nat + 4,
        PhaseView::StopProbing { remaining, .. } => 2 * remaining as nat + 2
            * ARTIFACT_POLLS as nat + 3,
        PhaseView::StopWaiting { remaining, .. } => 2 * remaining as nat + 2
            * ARTIFACT_POLLS as nat + 4,
        PhaseView::StopClearing { .. } => 2 * ARTIFACT_POLLS as nat + 2,
        PhaseView::StopChecking { remaining, .. } => 2 * remaining as nat + 1,
        PhaseView::StopSettling { remaining, .. } => 2 * remaining as nat + 2,
        PhaseView::Finished => 0,
    }
}

/// Every command ends: a run takes no more honest answers than the budget
/// of the phase it begins in, so neither the wait for a stopping process
/// nor the wait for its output file goes on for ever.
pub proof fn law_runs_are_bounded(from: Standing, replies: Seq<EventView>)
    requires
        pending(from.step.phase, from.step.action),
        honest_run(from, replies),
    ensures
        replies.len() <= budget(from.step.phase),
    decreases replies.len(),
{
    if replies.len() > 0 {
        lemma_next_is_pending(from.step.phase, replies[0]);
        law_runs_are_bounded(after(from, replies[0]), replies.drop_first());
    }
}

} // verus!
