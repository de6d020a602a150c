//! Whole sessions: what holds of every sequence of events that a controller
//! may be told.

use vstd::prelude::*;
use crate::sampler::{lemma_exact_cadence, processed_ordinals, selected, stride_multiples};
use crate::session::{
    consistent,
    fresh,
    phase_of,
    step_spec,
    Action,
    Awaiting,
    Controller,
    Ending,
    Event,
    Phase,
    State,
};

verus! {

/// The state after `events`, one after the other, and the actions asked for
/// along the way.
pub open spec fn run(s: State, events: Seq<Event>) -> (State, Seq<Action>)
    decreases events.len(),
{
    if events.len() == 0 {
        (s, Seq::empty())
    } else {
        let before = run(s, events.drop_last());
        let last = step_spec(before.0, events.last());
        (last.0, before.1.push(last.1))
    }
}

/// `action` asks to process the frame with this ordinal.
pub open spec fn processes(action: Action, ordinal: nat) -> bool {
    action matches Action::ProcessFrame { ordinal: o, .. } && o == ordinal
}

/// One of `actions` asks to process the frame with this ordinal.
pub open spec fn asks_for(actions: Seq<Action>, ordinal: nat) -> bool {
    exists|i: int| 0 <= i < actions.len() && processes(#[trigger] actions[i], ordinal)
}

/// The ordinals of the frames that `actions` ask to process.
pub open spec fn ordinals_processed(actions: Seq<Action>) -> Set<nat> {
    Set::new(|c: nat| asks_for(actions, c))
}

/// `action` asks for work on the stream: reading, feeding, decoding or
/// processing.
pub open spec fn is_work(action: Action) -> bool {
    action is ReadPacket || action is FeedDecoder || action is ReceiveFrame
        || action is ProcessFrame || action is ReadClock
}

/// The session has stopped reading.
pub open spec fn halted(s: State) -> bool {
    phase_of(s.awaiting) == Phase::Draining || phase_of(s.awaiting) == Phase::Terminated
}

/// Two events that are the same, or that both report what became of a frame.
pub open spec fn alike(a: Event, b: Event) -> bool {
    a == b || (a is FrameHandled && b is FrameHandled)
}

/// Tells `controller` the `events` in order and collects its answers.
pub fn replay(controller: &mut Controller, events: &[Event]) -> (actions: Vec<Action>)
    requires
        old(controller).wf(),
    ensures
        final(controller).wf(),
        (final(controller)@, actions@) == run(old(controller)@, events@),
{
    let mut actions: Vec<Action> = Vec::new();
    let mut i: usize = 0;
    assert(events@.take(0) =~= Seq::<Event>::empty());
    while i < events.len()
        invariant
            i <= events.len(),
            controller.wf(),
            (controller@, actions@) == run(old(controller)@, events@.take(i as int)),
        decreases events.len() - i,
    {
        let action = controller.step(events[i]);
        actions.push(action);
        i += 1;
        assert(events@.take(i as int).drop_last() =~= events@.take(i - 1));
        assert(events@.take(i as int).last() == events@[i - 1]);
    }
    assert(events@.take(i as int) =~= events@);
    actions
}

/// A transition keeps the state consistent, keeps the stride and the budget,
/// and never takes a frame back.
pub proof fn lemma_step_consistent(s: State, event: Event)
    requires
        consistent(s),
    ensures
        consistent(step_spec(s, event).0),
        step_spec(s, event).0.interval == s.interval,
        step_spec(s, event).0.budget_nanos == s.budget_nanos,
        s.frames_decoded <= step_spec(s, event).0.frames_decoded <= s.frames_decoded + 1,
{
}

/// So does a whole run.
pub proof fn lemma_run_consistent(s: State, events: Seq<Event>)
    requires
        consistent(s),
    ensures
        consistent(run(s, events).0),
        run(s, events).0.interval == s.interval,
        run(s, events).0.budget_nanos == s.budget_nanos,
        s.frames_decoded <= run(s, events).0.frames_decoded,
        run(s, events).1.len() == events.len(),
    decreases events.len(),
{
    if events.len() > 0 {
        lemma_run_consistent(s, events.drop_last());
        lemma_step_consistent(run(s, events.drop_last()).0, events.last());
    }
}

/// From any state on, the frames asked to be processed are those counted
/// during the run whose ordinal the stride divides.
pub proof fn lemma_run_cadence(s: State, events: Seq<Event>)
    requires
        consistent(s),
    ensures
        forall|c: nat|
            #[trigger] asks_for(run(s, events).1, c) <==> s.frames_decoded < c <= run(
                s,
                events,
            ).0.frames_decoded && selected(c, s.interval as nat),
    decreases events.len(),
{
    let actions = run(s, events).1;
    let end = run(s, events).0;
    if events.len() == 0 {
        assert forall|c: nat| #[trigger] asks_for(actions, c) <==> s.frames_decoded < c
            <= end.frames_decoded && selected(c, s.interval as nat) by {}
    } else {
        let before = run(s, events.drop_last());
        let last = step_spec(before.0, events.last());
        lemma_run_cadence(s, events.drop_last());
        lemma_run_consistent(s, events.drop_last());
        lemma_step_consistent(before.0, events.last());
        assert(actions == before.1.push(last.1));
        assert forall|c: nat| #[trigger] asks_for(actions, c) <==> s.frames_decoded < c
            <= end.frames_decoded && selected(c, s.interval as nat) by {
            if asks_for(actions, c) {
                let i = choose|i: int| 0 <= i < actions.len() && processes(#[trigger] actions[i], c);
                if i < before.1.len() {
                    assert(actions[i] == before.1[i]);
                    assert(processes(before.1[i], c));
                    assert(asks_for(before.1, c));
                } else {
                    assert(actions[i] == last.1);
                    assert(processes(last.1, c));
                    assert(c == end.frames_decoded);
                    assert(end.frames_decoded == before.0.frames_decoded + 1);
                    assert(selected(c, before.0.interval as nat));
                }
                assert(s.frames_decoded < c <= end.frames_decoded && selected(
                    c,
                    s.interval as nat,
                ));
            }
            if s.frames_decoded < c <= end.frames_decoded && selected(c, s.interval as nat) {
                if c <= before.0.frames_decoded {
                    assert(asks_for(before.1, c));
                    let i = choose|i: int|
                        0 <= i < before.1.len() && processes(#[trigger] before.1[i], c);
                    assert(actions[i] == before.1[i]);
                    assert(processes(actions[i], c));
                } else {
                    assert(c == end.frames_decoded);
                    assert(end.frames_decoded == before.0.frames_decoded + 1);
                    assert(selected(c, before.0.interval as nat));
                    assert(processes(last.1, c));
                    assert(actions[actions.len() - 1] == last.1);
                    assert(processes(actions[actions.len() - 1], c));
                }
                assert(asks_for(actions, c));
            }
        }
    }
}

/// Exact cadence: a session with stride `interval` that has decoded `F`
/// frames has asked to process exactly the frames `interval`, `2 * interval`,
/// ... up to `F`, however the events were spread over packets and whatever
/// became of each frame.
pub proof fn lemma_session_cadence(interval: u32, budget_nanos: u128, events: Seq<Event>)
    requires
        interval >= 1,
    ensures
        ordinals_processed(run(fresh(interval, budget_nanos), events).1) == processed_ordinals(
            interval as nat,
            run(fresh(interval, budget_nanos), events).0.frames_decoded as nat,
        ),
        ordinals_processed(run(fresh(interval, budget_nanos), events).1) == stride_multiples(
            interval as nat,
            run(fresh(interval, budget_nanos), events).0.frames_decoded as nat,
        ),
{
    let s = fresh(interval, budget_nanos);
    let frames = run(s, events).0.frames_decoded as nat;
    lemma_run_cadence(s, events);
    lemma_exact_cadence(interval as nat, frames);
    assert forall|c: nat| ordinals_processed(run(s, events).1).contains(c)
        <==> processed_ordinals(interval as nat, frames).contains(c) by {
        assert(asks_for(run(s, events).1, c) <==> 0 < c <= frames && selected(c, interval as nat));
    }
    assert(ordinals_processed(run(s, events).1) =~= processed_ordinals(interval as nat, frames));
}

/// Isolation, one frame: whatever became of a sampled frame, the controller
/// goes on in the same way.
pub proof fn lemma_outcome_ignored(s: State, a: Event, b: Event)
    requires
        alike(a, b),
    ensures
        step_spec(s, a) == step_spec(s, b),
{
}

/// Isolation, whole sessions: two runs that differ only in what became of
/// their sampled frames pass through the same states and ask for the same
/// actions, so a frame that failed changes nothing for the frames after it.
pub proof fn lemma_failure_isolation(s: State, first: Seq<Event>, second: Seq<Event>)
    requires
        first.len() == second.len(),
        forall|i: int| 0 <= i < first.len() ==> alike(#[trigger] first[i], second[i]),
    ensures
        run(s, first) == run(s, second),
    decreases first.len(),
{
    if first.len() > 0 {
        assert forall|i: int| 0 <= i < first.drop_last().len() implies alike(
            #[trigger] first.drop_last()[i],
            second.drop_last()[i],
        ) by {
            assert(alike(first[i], second[i]));
        }
        lemma_failure_isolation(s, first.drop_last(), second.drop_last());
        assert(alike(first[first.len() - 1], second[first.len() - 1]));
        lemma_outcome_ignored(run(s, first.drop_last()).0, first.last(), second.last());
    }
}

/// The budget check: told a reading of the clock at or past the budget, a
/// controller that asked for the clock stops reading at once.
pub proof fn lemma_budget_stops(s: State, elapsed_nanos: u128)
    requires
        s.awaiting == Awaiting::Clock,
        elapsed_nanos >= s.budget_nanos,
    ensures
        phase_of(step_spec(s, Event::Clock { elapsed_nanos }).0.awaiting) == Phase::Draining,
        step_spec(s, Event::Clock { elapsed_nanos }).0.ending == Some(Ending::Budget),
        step_spec(s, Event::Clock { elapsed_nanos }).0.elapsed_nanos == elapsed_nanos,
        step_spec(s, Event::Clock { elapsed_nanos }).1 == Action::Close,
{
}

/// No packet is read without time left: the controller asks for a packet
/// only when the source has just been opened, or in answer to a reading of the
/// clock that is below the budget. So the clock is read after every packet,
/// whichever stream it belongs to and whether or not the decoder took it.
pub proof fn lemma_read_needs_time_left(s: State, event: Event)
    requires
        step_spec(s, event).1 == Action::ReadPacket,
    ensures
        (s.awaiting == Awaiting::Source && event is SourceReady) || (s.awaiting == Awaiting::Clock
            && event is Clock && event->Clock_elapsed_nanos < s.budget_nanos),
{
}

/// A session that the budget ended ran for at least the budget.
pub proof fn lemma_budget_respected(interval: u32, budget_nanos: u128, events: Seq<Event>)
    requires
        interval >= 1,
        run(fresh(interval, budget_nanos), events).0.ending == Some(Ending::Budget),
    ensures
        run(fresh(interval, budget_nanos), events).0.elapsed_nanos >= budget_nanos,
{
    lemma_run_consistent(fresh(interval, budget_nanos), events);
}

/// Once a session has stopped reading it stays stopped: no later event makes
/// it ask for a packet, a frame or the clock again, and its counters stand.
pub proof fn lemma_halted_stays(s: State, events: Seq<Event>)
    requires
        halted(s),
    ensures
        halted(run(s, events).0),
        run(s, events).0.frames_decoded == s.frames_decoded,
        run(s, events).0.elapsed_nanos == s.elapsed_nanos,
        run(s, events).0.ending == s.ending,
        forall|i: int| 0 <= i < run(s, events).1.len() ==> !is_work(#[trigger] run(s, events).1[i]),
    decreases events.len(),
{
    if events.len() > 0 {
        lemma_halted_stays(s, events.drop_last());
        let before = run(s, events.drop_last());
        let last = step_spec(before.0, events.last());
        assert(!is_work(last.1));
        assert forall|i: int| 0 <= i < run(s, events).1.len() implies !is_work(
            #[trigger] run(s, events).1[i],
        ) by {
            if i < before.1.len() {
                assert(run(s, events).1[i] == before.1[i]);
            }
        }
    }
}

/// A session that cannot start processes nothing: after a failure to set up,
/// no frame is counted and no work is asked for.
pub proof fn lemma_fatal_processes_nothing(
    interval: u32,
    budget_nanos: u128,
    error: crate::error::FatalError,
    events: Seq<Event>,
)
    ensures
        run(
            step_spec(fresh(interval, budget_nanos), Event::SourceFailed { error }).0,
            events,
        ).0.frames_decoded == 0,
        forall|i: int|
            0 <= i < events.len() ==> !is_work(
                #[trigger] run(
                    step_spec(fresh(interval, budget_nanos), Event::SourceFailed { error }).0,
                    events,
                ).1[i],
            ),
{
    let s = step_spec(fresh(interval, budget_nanos), Event::SourceFailed { error }).0;
    lemma_halted_stays(s, events);
    lemma_run_length(s, events);
}

/// A run asks for one action per event.
pub proof fn lemma_run_length(s: State, events: Seq<Event>)
    ensures
        run(s, events).1.len() == events.len(),
    decreases events.len(),
{
    if events.len() > 0 {
        lemma_run_length(s, events.drop_last());
    }
}

} // verus!
