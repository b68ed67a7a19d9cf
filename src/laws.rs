use vstd::prelude::*;

use crate::outcome::{StartOutcome, StopOutcome};
use crate::supervisor::{
    answers, begin_spec, kill_outcome_spec, next_spec, slot_after, stop_spec, StartAction,
    StartEvent, StartPhase, StopAction,
};

verus! {

/// Feeds `events` to a start attempt standing at `phase`, as
/// `StartSession::step` would; it halts at the first event that is not the
/// one awaited (once finished, none is). Yields the last phase, the slot and
/// the actions handed out.
pub open spec fn run_events<H>(phase: StartPhase, slot: Option<H>, events: Seq<StartEvent<H>>) -> (
    StartPhase,
    Option<H>,
    Seq<StartAction>,
)
    decreases events.len(),
{
    if events.len() == 0 || !answers(phase, events[0]) {
        (phase, slot, Seq::empty())
    } else {
        let next = next_spec(events[0]);
        let rest = run_events(next.0, slot_after(slot, events[0]), events.drop_first());
        (rest.0, rest.1, seq![next.1] + rest.2)
    }
}

/// A whole start attempt on a supervisor holding `slot`: `StartSession::begin`
/// followed by `events`.
pub open spec fn start_attempt<H>(slot: Option<H>, events: Seq<StartEvent<H>>) -> (
    StartPhase,
    Option<H>,
    Seq<StartAction>,
) {
    let first = begin_spec(slot is Some);
    let rest = run_events(first.0, slot, events);
    (rest.0, rest.1, seq![first.1] + rest.2)
}

/// How many times `actions` asks the host to spawn a child.
pub open spec fn spawn_count(actions: Seq<StartAction>) -> nat
    decreases actions.len(),
{
    if actions.len() == 0 {
        0
    } else {
        (if actions[0] is Spawn {
            1nat
        } else {
            0nat
        }) + spawn_count(actions.drop_first())
    }
}

/// The reports of a start in which every step succeeds and the child gets
/// handle `h`.
pub open spec fn smooth_start<H>(data_dir: String, search_path: Option<String>, h: H) -> Seq<
    StartEvent<H>,
> {
    seq![
        StartEvent::DataDirResolved(Ok(())),
        StartEvent::DataDirCreated(Ok(())),
        StartEvent::DataDirConverted(Some(data_dir)),
        StartEvent::SearchPathRead(search_path),
        StartEvent::CommandLocated(Ok(())),
        StartEvent::Spawned(Ok(h)),
    ]
}

/// The actions of a smooth start on an empty supervisor.
pub open spec fn smooth_start_actions() -> Seq<StartAction> {
    seq![
        StartAction::ResolveDataDir,
        StartAction::CreateDataDir,
        StartAction::ConvertDataDir,
        StartAction::ReadSearchPath,
        StartAction::LocateCommand,
        StartAction::Spawn,
        StartAction::Finish(Ok(StartOutcome::Started)),
    ]
}

/// Start attempts run one after another, as the lock around the supervisor
/// orders concurrent callers. Yields the slot and the number of spawns.
pub open spec fn serial_starts<H>(slot: Option<H>, attempts: Seq<Seq<StartEvent<H>>>) -> (
    Option<H>,
    nat,
)
    decreases attempts.len(),
{
    if attempts.len() == 0 {
        (slot, 0)
    } else {
        let first = start_attempt(slot, attempts[0]);
        let rest = serial_starts(first.1, attempts.drop_first());
        (rest.0, spawn_count(first.2) + rest.1)
    }
}

pub open spec fn spawn_succeeded<H>(event: StartEvent<H>) -> bool {
    event matches StartEvent::Spawned(Ok(_))
}

proof fn lemma_smooth_start<H>(data_dir: String, search_path: Option<String>, h: H)
    ensures
        start_attempt(None, smooth_start(data_dir, search_path, h)) == (
            StartPhase::Finished,
            Some(h),
            smooth_start_actions(),
        ),
        spawn_count(smooth_start_actions()) == 1,
{
    let ev = smooth_start(data_dir, search_path, h);
    let e1 = ev.drop_first();
    let e2 = e1.drop_first();
    let e3 = e2.drop_first();
    let e4 = e3.drop_first();
    let e5 = e4.drop_first();
    let e6 = e5.drop_first();
    assert(e6 =~= Seq::<StartEvent<H>>::empty());
    let r6 = run_events(StartPhase::Finished, Some(h), e6);
    assert(r6 == (StartPhase::Finished, Some(h), Seq::<StartAction>::empty()));
    let r5 = run_events(StartPhase::Spawning, None, e5);
    assert(r5.2 =~= seq![StartAction::Finish(Ok(StartOutcome::Started))]);
    let r4 = run_events(StartPhase::LocatingCommand, None, e4);
    assert(r4.2 =~= seq![StartAction::Spawn] + r5.2);
    let r3 = run_events(StartPhase::ReadingSearchPath, None, e3);
    assert(r3.2 =~= seq![StartAction::LocateCommand] + r4.2);
    let r2 = run_events(StartPhase::ConvertingDataDir, None, e2);
    assert(r2.2 =~= seq![StartAction::ReadSearchPath] + r3.2);
    let r1 = run_events(StartPhase::CreatingDataDir, None, e1);
    assert(r1.2 =~= seq![StartAction::ConvertDataDir] + r2.2);
    let r0 = run_events(StartPhase::ResolvingDataDir, None, ev);
    assert(r0.2 =~= seq![StartAction::CreateDataDir] + r1.2);
    assert(r0 == (StartPhase::Finished, Some(h), r0.2));
    assert(start_attempt(None, ev).2 =~= smooth_start_actions());
    let acts = smooth_start_actions();
    assert(acts.drop_first().drop_first().drop_first().drop_first().drop_first().drop_first().drop_first()
        =~= Seq::<StartAction>::empty());
    reveal_with_fuel(spawn_count, 8);
}

proof fn lemma_start_while_running<H>(h: H, events: Seq<StartEvent<H>>)
    ensures
        start_attempt(Some(h), events) == (
            StartPhase::Finished,
            Some(h),
            seq![StartAction::Finish(Ok(StartOutcome::AlreadyRunning))],
        ),
        spawn_count(start_attempt(Some(h), events).2) == 0,
{
    assert(run_events(StartPhase::Finished, Some(h), events).2 =~= Seq::<StartAction>::empty());
    let acts = start_attempt(Some(h), events).2;
    assert(acts =~= seq![StartAction::Finish(Ok(StartOutcome::AlreadyRunning))]);
    assert(acts.drop_first() =~= Seq::<StartAction>::empty());
    reveal_with_fuel(spawn_count, 2);
}

proof fn lemma_slot_kept_without_spawn<H>(phase: StartPhase, slot: Option<H>, events: Seq<StartEvent<H>>)
    requires
        forall|i: int| 0 <= i < events.len() ==> !spawn_succeeded(#[trigger] events[i]),
    ensures
        run_events(phase, slot, events).1 == slot,
    decreases events.len(),
{
    if events.len() > 0 && answers(phase, events[0]) {
        assert(!spawn_succeeded(events[0]));
        let rest = events.drop_first();
        assert forall|i: int| 0 <= i < rest.len() implies !spawn_succeeded(#[trigger] rest[i]) by {
            assert(rest[i] == events[i + 1]);
        }
        lemma_slot_kept_without_spawn(next_spec(events[0]).0, slot, rest);
    }
}

proof fn lemma_serial_starts_while_running<H>(h: H, attempts: Seq<Seq<StartEvent<H>>>)
    ensures
        serial_starts(Some(h), attempts) == (Some(h), 0nat),
    decreases attempts.len(),
{
    if attempts.len() > 0 {
        lemma_start_while_running(h, attempts[0]);
        lemma_serial_starts_while_running(h, attempts.drop_first());
    }
}

/// Starting twice without a stop in between: the first start spawns the
/// child once and reports `Started`; the second finds it held, reports
/// `AlreadyRunning`, spawns nothing and leaves the slot as it was.
pub proof fn law_second_start_is_a_no_op<H>(
    data_dir: String,
    search_path: Option<String>,
    h: H,
    later: Seq<StartEvent<H>>,
)
    ensures
        ({
            let first = start_attempt(None, smooth_start(data_dir, search_path, h));
            let second = start_attempt(first.1, later);
            &&& first.2.last() == StartAction::Finish(Ok(StartOutcome::Started))
            &&& spawn_count(first.2) == 1
            &&& first.1 == Some(h)
            &&& second.2 == seq![StartAction::Finish(Ok(StartOutcome::AlreadyRunning))]
            &&& spawn_count(second.2) == 0
            &&& second.1 == Some(h)
        }),
{
    lemma_smooth_start(data_dir, search_path, h);
    lemma_start_while_running(h, later);
}

/// Stopping an empty supervisor reports `NotRunning` and hands out no child
/// to kill.
pub proof fn law_stop_when_idle<H>()
    ensures
        stop_spec::<H>(None) == (None::<H>, StopAction::<H>::Finish(Ok(StopOutcome::NotRunning))),
        !(stop_spec::<H>(None).1 is Kill),
{
}

/// Stopping after a successful start empties the slot and hands out the
/// started child to be killed; once the kill goes through the stop reports
/// `Stopped`. The slot is then empty, so a further stop kills nothing: the
/// child is signalled exactly once.
pub proof fn law_stop_after_start_kills_once<H>(data_dir: String, search_path: Option<String>, h: H)
    ensures
        ({
            let started = start_attempt(None, smooth_start(data_dir, search_path, h)).1;
            let stopped = stop_spec(started);
            &&& stopped == (None::<H>, StopAction::Kill(h))
            &&& kill_outcome_spec(Ok(())) == Ok::<StopOutcome, crate::outcome::SidecarError>(
                StopOutcome::Stopped,
            )
            &&& !(stop_spec(stopped.0).1 is Kill)
        }),
{
    lemma_smooth_start(data_dir, search_path, h);
}

/// Status (whether the slot holds a child) is false before any start, true
/// after a successful start and false after the following stop.
pub proof fn law_status_follows_lifecycle<H>(data_dir: String, search_path: Option<String>, h: H)
    ensures
        !(None::<H> is Some),
        start_attempt(None, smooth_start(data_dir, search_path, h)).1 is Some,
        !(stop_spec(start_attempt(None, smooth_start(data_dir, search_path, h)).1).0 is Some),
{
    lemma_smooth_start(data_dir, search_path, h);
}

/// A start attempt on an empty supervisor in which no spawn succeeds (it
/// failed, or an earlier step did) leaves the slot empty, so the next start
/// begins afresh instead of reporting `AlreadyRunning`.
pub proof fn law_failed_start_leaves_slot_empty<H>(events: Seq<StartEvent<H>>)
    requires
        forall|i: int| 0 <= i < events.len() ==> !spawn_succeeded(#[trigger] events[i]),
    ensures
        start_attempt(None, events).1 is None,
        begin_spec(start_attempt(None, events).1 is Some) == (
            StartPhase::ResolvingDataDir,
            StartAction::ResolveDataDir,
        ),
{
    lemma_slot_kept_without_spawn(StartPhase::ResolvingDataDir, None::<H>, events);
}

/// Start attempts from many callers, ordered by the lock: once the first
/// succeeds, every later one finds the child held. The slot ends holding
/// the first child and exactly one spawn was asked for.
pub proof fn law_serialized_starts_spawn_once<H>(
    data_dir: String,
    search_path: Option<String>,
    h: H,
    attempts: Seq<Seq<StartEvent<H>>>,
)
    requires
        attempts.len() >= 1,
        attempts[0] == smooth_start(data_dir, search_path, h),
    ensures
        serial_starts(None, attempts) == (Some(h), 1nat),
{
    lemma_smooth_start(data_dir, search_path, h);
    lemma_serial_starts_while_running(h, attempts.drop_first());
}

} // verus!
