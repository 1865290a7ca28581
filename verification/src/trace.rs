//! Runs of operations on one mock, and what its history holds after a run.

use crate::mock::Mock;
use vstd::prelude::*;
use vstd::std_specs::cmp::PartialEqSpec;

verus! {

/// One operation on a mock, as far as the history is concerned.
pub enum Event<C, R> {
    /// `call` with `args`, which returned `ret`.
    Called { args: C, ret: R },
    /// `reset_calls`.
    Reset,
    /// Anything that leaves the history as it is: setting the stub value,
    /// installing an override, or an inspection.
    Configured,
}

/// Whether `event` takes a mock from `pre` to `post`.
pub open spec fn step<C: Clone, R: Clone>(
    pre: Mock<C, R>,
    event: Event<C, R>,
    post: Mock<C, R>,
) -> bool {
    match event {
        Event::Called { args, ret } => pre.call_yields(args, ret, &post),
        Event::Reset => pre.history_cleared(&post),
        Event::Configured => post@.history == pre@.history,
    }
}

/// Whether `states` are the states that a mock goes through under `events`:
/// `states[i]` before `events[i]`, and `states[i + 1]` after it.
pub open spec fn is_run<C: Clone, R: Clone>(
    states: Seq<Mock<C, R>>,
    events: Seq<Event<C, R>>,
) -> bool {
    &&& states.len() == events.len() + 1
    &&& forall|i: int|
        0 <= i < events.len() ==> step(states[i], #[trigger] events[i], states[i + 1])
}

/// The arguments of the calls among `events` that no later reset has
/// cleared, in the order of the calls.
pub open spec fn passed_since_reset<C, R>(events: Seq<Event<C, R>>) -> Seq<C>
    decreases events.len(),
{
    if events.len() == 0 {
        Seq::empty()
    } else {
        let earlier = passed_since_reset(events.drop_last());
        match events.last() {
            Event::Called { args, ret } => earlier.push(args),
            Event::Reset => Seq::empty(),
            Event::Configured => earlier,
        }
    }
}

/// Whether `history` records `passed`: as many elements, in the same order,
/// each a clone of the argument passed.
pub open spec fn records<C: Clone>(history: Seq<C>, passed: Seq<C>) -> bool {
    &&& history.len() == passed.len()
    &&& forall|i: int| 0 <= i < passed.len() ==> cloned(passed[i], #[trigger] history[i])
}

/// After any run that starts with an empty history, the history records
/// exactly the arguments of the calls made since the last reset: one element
/// per call, duplicates included, in the order of the calls. In particular
/// the call count is the number of those calls.
pub proof fn lemma_history_records_calls<C: Clone, R: Clone>(
    states: Seq<Mock<C, R>>,
    events: Seq<Event<C, R>>,
)
    requires
        is_run(states, events),
        states[0]@.history == Seq::<C>::empty(),
    ensures
        records(states.last()@.history, passed_since_reset(events)),
        states.last().call_count() == passed_since_reset(events).len(),
    decreases events.len(),
{
    if events.len() > 0 {
        let before = states.drop_last();
        let earlier = events.drop_last();
        assert(is_run(before, earlier)) by {
            assert forall|i: int| 0 <= i < earlier.len() implies step(
                before[i],
                #[trigger] earlier[i],
                before[i + 1],
            ) by {
                assert(step(states[i], events[i], states[i + 1]));
            }
        }
        lemma_history_records_calls(before, earlier);
        let pre = before.last();
        let post = states.last();
        assert(step(pre, events[events.len() - 1], post));
        match events.last() {
            Event::Called { args, ret } => {
                let passed = passed_since_reset(events);
                assert forall|i: int| 0 <= i < passed.len() implies cloned(
                    passed[i],
                    #[trigger] post@.history[i],
                ) by {
                    if i < passed.len() - 1 {
                        assert(post@.history[i] == post@.history.drop_last()[i]);
                    }
                }
            },
            Event::Reset => {},
            Event::Configured => {},
        }
    }
}

/// After any run that starts with an empty history, a snapshot of the history
/// has one element per call made since the last reset, in the order of the
/// calls: the clone handed out of the clone that was recorded.
pub proof fn lemma_snapshot_follows_calls<C: Clone, R: Clone>(
    states: Seq<Mock<C, R>>,
    events: Seq<Event<C, R>>,
    snapshot: Seq<C>,
)
    requires
        is_run(states, events),
        states[0]@.history == Seq::<C>::empty(),
        states.last().snapshot_of_history(snapshot),
    ensures
        snapshot.len() == passed_since_reset(events).len(),
        forall|i: int|
            0 <= i < snapshot.len() ==> cloned(
                passed_since_reset(events)[i],
                states.last()@.history[i],
            ) && cloned(states.last()@.history[i], #[trigger] snapshot[i]),
{
    lemma_history_records_calls(states, events);
}

/// A mock has been called exactly when its call count is not zero.
pub proof fn lemma_called_iff_counted<C: Clone, R: Clone>(mock: Mock<C, R>)
    ensures
        mock.was_called() <==> mock.call_count() != 0,
{
}

/// After a reset nothing is recorded, whatever was recorded before: the call
/// count is zero, the mock counts as not called, and no argument is found.
pub proof fn lemma_reset_forgets<C: Clone + PartialEq, R: Clone>(
    pre: Mock<C, R>,
    post: Mock<C, R>,
    args: C,
)
    requires
        pre.history_cleared(&post),
    ensures
        post.call_count() == 0,
        !post.was_called(),
        !post.recorded(args),
{
}

/// After any run that starts with an empty history, an argument is found
/// exactly when it equals what was recorded for one of the calls made since
/// the last reset.
pub proof fn lemma_recorded_iff_passed<C: Clone + PartialEq, R: Clone>(
    states: Seq<Mock<C, R>>,
    events: Seq<Event<C, R>>,
    args: C,
)
    requires
        is_run(states, events),
        states[0]@.history == Seq::<C>::empty(),
    ensures
        states.last().recorded(args) <==> exists|i: int|
            0 <= i < passed_since_reset(events).len() && cloned(
                passed_since_reset(events)[i],
                #[trigger] states.last()@.history[i],
            ) && states.last()@.history[i].eq_spec(&args),
{
    lemma_history_records_calls(states, events);
}

} // verus!
