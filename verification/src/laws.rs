//! What holds of every informer, whatever the server and the handler do.

use vstd::prelude::*;
use crate::event::ChangeEvent;
use crate::event::RawNotification;
use crate::event::dispatchable;
use crate::informer::Action;
use crate::informer::Diagnostic;
use crate::informer::HandlerError;
use crate::informer::InformerState;
use crate::informer::Phase;
use crate::informer::SessionFailure;
use crate::informer::Signal;
use crate::informer::StopReason;
use crate::informer::WatchCursor;
use crate::informer::advanced;
use crate::informer::cancelled;
use crate::informer::decided;
use crate::informer::diagnosed;
use crate::informer::highest_version;
use crate::informer::normalized_all;
use crate::informer::observed;
use crate::informer::pending;
use crate::informer::settled;
use crate::informer::stepped;
use crate::queue::skip_hidden;
use crate::resource::Resource;
use crate::retry::backoff_ms;

verus! {

/// The events of `events` that the application gets to see, in their order.
pub open spec fn deliveries<P>(events: Seq<ChangeEvent<P>>) -> Seq<ChangeEvent<P>> {
    events.filter(|event: ChangeEvent<P>| dispatchable(event.kind))
}

/// Whether the informer hands events out in this phase.
pub open spec fn hands_out(phase: Phase) -> bool {
    phase == Phase::Watching || phase == Phase::Draining
}

/// Whether cancellation has taken effect: the informer drains or has stopped.
pub open spec fn winding_down(phase: Phase) -> bool {
    phase == Phase::Draining || phase is Stopped
}

/// The events that the informer dispatches, in the order in which it does,
/// when the driver asks for one action after the other and reports nothing
/// in between but that the handler returned.
pub open spec fn dispatched<P>(state: InformerState<P>) -> Seq<ChangeEvent<P>>
    decreases state.queue.len(),
    when hands_out(state.phase)
    via dispatched_terminates::<P>
{
    match decided(state) {
        Action::Dispatch(event) => seq![event] + dispatched(settled(state)),
        _ => Seq::empty(),
    }
}

#[via_fn]
proof fn dispatched_terminates<P>(state: InformerState<P>) {
    lemma_skip_hidden_is_suffix(state.queue);
}

/// The informer when the driver has asked for actions until none was a
/// dispatch any more.
pub open spec fn flushed<P>(state: InformerState<P>) -> InformerState<P>
    decreases state.queue.len(),
    when hands_out(state.phase)
    via flushed_terminates::<P>
{
    match decided(state) {
        Action::Dispatch(_) => flushed(settled(state)),
        _ => settled(state),
    }
}

#[via_fn]
proof fn flushed_terminates<P>(state: InformerState<P>) {
    lemma_skip_hidden_is_suffix(state.queue);
}

/// The informer after the driver has taken these turns one after the other:
/// each is a signal and whether cancellation was requested with it.
pub open spec fn after_turns<P>(state: InformerState<P>, turns: Seq<(Signal<P>, bool)>)
    -> InformerState<P>
    decreases turns.len(),
{
    if turns.len() == 0 {
        state
    } else {
        stepped(after_turns(state, turns.drop_last()), turns.last().0, turns.last().1)
    }
}

/// Skipping hidden events leaves an end piece of the queue, which starts
/// with an event that the application gets to see unless it is empty, and
/// hides no such event.
pub proof fn lemma_skip_hidden_is_suffix<P>(events: Seq<ChangeEvent<P>>)
    ensures
        skip_hidden(events).len() <= events.len(),
        skip_hidden(events) == events.subrange(
            events.len() - skip_hidden(events).len(),
            events.len() as int,
        ),
        skip_hidden(events).len() > 0 ==> dispatchable(skip_hidden(events)[0].kind),
        deliveries(skip_hidden(events)) == deliveries(events),
    decreases events.len(),
{
    if events.len() == 0 || dispatchable(events[0].kind) {
        assert(events.subrange(0, events.len() as int) =~= events);
    } else {
        let rest = events.subrange(1, events.len() as int);
        lemma_skip_hidden_is_suffix(rest);
        assert(rest.subrange(rest.len() - skip_hidden(rest).len(), rest.len() as int)
            =~= events.subrange(events.len() - skip_hidden(rest).len(), events.len() as int));
        lemma_deliveries_front(events);
    }
}

/// The deliveries of a queue are its first event, if the application gets to
/// see it, and then the deliveries of the rest.
pub proof fn lemma_deliveries_front<P>(events: Seq<ChangeEvent<P>>)
    requires
        events.len() > 0,
    ensures
        deliveries(events) == if dispatchable(events[0].kind) {
            seq![events[0]] + deliveries(events.drop_first())
        } else {
            deliveries(events.drop_first())
        },
{
    let seen = |event: ChangeEvent<P>| dispatchable(event.kind);
    let first = seq![events[0]];
    assert(events =~= first + events.drop_first());
    Seq::filter_distributes_over_add(first, events.drop_first(), seen);
    reveal_with_fuel(Seq::filter, 2);
    assert(first.drop_last() =~= Seq::<ChangeEvent<P>>::empty());
    if dispatchable(events[0].kind) {
        assert(first.filter(seen) =~= first);
    } else {
        assert(first.filter(seen) =~= Seq::<ChangeEvent<P>>::empty());
        assert(first.filter(seen) + events.drop_first().filter(seen)
            =~= events.drop_first().filter(seen));
    }
}

/// Queue order is delivery order: an informer that hands events out
/// dispatches exactly the events of its queue that the application gets to
/// see, each once, oldest first; after that its queue is empty.
pub proof fn lemma_dispatches_in_queue_order<P>(state: InformerState<P>)
    requires
        hands_out(state.phase),
    ensures
        dispatched(state) == deliveries(state.queue),
        flushed(state).queue.len() == 0,
        flushed(state) == (InformerState {
            phase: if state.phase == Phase::Draining {
                Phase::Stopped(StopReason::Cancelled)
            } else {
                Phase::Watching
            },
            queue: Seq::empty(),
            ..state
        }),
    decreases state.queue.len(),
{
    lemma_skip_hidden_is_suffix(state.queue);
    let rest = skip_hidden(state.queue);
    if rest.len() > 0 {
        lemma_dispatches_in_queue_order(settled(state));
        lemma_deliveries_front(rest);
    } else {
        reveal_with_fuel(Seq::filter, 1);
        assert(settled(state).queue =~= Seq::<ChangeEvent<P>>::empty());
    }
}

/// Order preservation: when a batch of notifications is reported to an
/// informer that hands events out, the events that it then dispatches are
/// those that waited before, followed by the events that the batch is
/// normalized into, in the order of the batch, without those that the
/// application does not get to see.
pub proof fn lemma_batch_is_dispatched_in_order<P>(
    state: InformerState<P>,
    batch: Vec<RawNotification<P>>,
)
    requires
        hands_out(state.phase),
    ensures
        dispatched(observed(state, Signal::Batch(batch))) == deliveries(state.queue) + deliveries(
            normalized_all(batch@),
        ),
{
    lemma_dispatches_in_queue_order(observed(state, Signal::Batch(batch)));
    Seq::filter_distributes_over_add(
        state.queue,
        normalized_all(batch@),
        |event: ChangeEvent<P>| dispatchable(event.kind),
    );
}

/// The deliveries of a queue keep the order of the queue: of any two of
/// them, the earlier one waited earlier in the queue.
pub proof fn lemma_deliveries_keep_order<P>(events: Seq<ChangeEvent<P>>, i: int, j: int)
    requires
        0 <= i < j < deliveries(events).len(),
    ensures
        exists|a: int, b: int|
            0 <= a < b < events.len() && events[a] == deliveries(events)[i] && events[b]
                == deliveries(events)[j],
    decreases events.len(),
{
    reveal(Seq::filter);
    let seen = |event: ChangeEvent<P>| dispatchable(event.kind);
    let front = events.drop_last();
    if seen(events.last()) && j == deliveries(events).len() - 1 {
        assert(deliveries(events) == deliveries(front).push(events.last()));
        lemma_delivery_waited(front, i);
        let a = choose|a: int| 0 <= a < front.len() && front[a] == deliveries(front)[i];
        assert(events[a] == deliveries(events)[i]);
        assert(events[events.len() - 1] == deliveries(events)[j]);
    } else {
        lemma_deliveries_keep_order(front, i, j);
        let (a, b) = choose|a: int, b: int|
            0 <= a < b < front.len() && front[a] == deliveries(front)[i] && front[b] == deliveries(
                front,
            )[j];
        assert(events[a] == deliveries(events)[i] && events[b] == deliveries(events)[j]);
    }
}

/// Every delivery waited in the queue.
pub proof fn lemma_delivery_waited<P>(events: Seq<ChangeEvent<P>>, i: int)
    requires
        0 <= i < deliveries(events).len(),
    ensures
        exists|a: int| 0 <= a < events.len() && events[a] == deliveries(events)[i],
    decreases events.len(),
{
    reveal(Seq::filter);
    let seen = |event: ChangeEvent<P>| dispatchable(event.kind);
    let front = events.drop_last();
    if seen(events.last()) && i == deliveries(events).len() - 1 {
        assert(events[events.len() - 1] == deliveries(events)[i]);
    } else {
        lemma_delivery_waited(front, i);
        let a = choose|a: int| 0 <= a < front.len() && front[a] == deliveries(front)[i];
        assert(events[a] == deliveries(events)[i]);
    }
}

/// Whether two payloads are states of one instance: they agree in name and
/// namespace.
pub open spec fn same_instance<P>(one: Resource<P>, other: Resource<P>) -> bool {
    one.metadata.name@ == other.metadata.name@ && one.metadata.namespace@
        == other.metadata.namespace@
}

/// Whether, of any two events of `events` for one instance, the later one
/// has no lower resource version than the earlier one.
pub open spec fn versions_ordered<P>(events: Seq<ChangeEvent<P>>) -> bool {
    forall|a: int, b: int|
        0 <= a < b < events.len() && same_instance(events[a].payload, events[b].payload)
            ==> events[a].payload.metadata.resource_version
            <= events[b].payload.metadata.resource_version
}

/// Ordering per instance: if the events of each instance wait in the order
/// of their resource versions, they are dispatched in that order.
pub proof fn lemma_versions_stay_ordered<P>(state: InformerState<P>)
    requires
        hands_out(state.phase),
        versions_ordered(state.queue),
    ensures
        versions_ordered(dispatched(state)),
{
    lemma_dispatches_in_queue_order(state);
    let out = deliveries(state.queue);
    assert forall|i: int, j: int|
        0 <= i < j < out.len() && same_instance(out[i].payload, out[j].payload) implies out[i]
        .payload.metadata.resource_version <= out[j].payload.metadata.resource_version by {
        lemma_deliveries_keep_order(state.queue, i, j);
        let (a, b) = choose|a: int, b: int|
            0 <= a < b < state.queue.len() && state.queue[a] == out[i] && state.queue[b] == out[j];
        assert(same_instance(state.queue[a].payload, state.queue[b].payload));
    }
}

/// Ordering per instance, from the server to the handler: if the server
/// sends the states of each instance in the order of their resource
/// versions, an informer with an empty queue dispatches them in that order.
pub proof fn lemma_batch_versions_stay_ordered<P>(
    state: InformerState<P>,
    batch: Vec<RawNotification<P>>,
)
    requires
        hands_out(state.phase),
        state.queue.len() == 0,
        forall|a: int, b: int|
            0 <= a < b < batch@.len() && same_instance(batch@[a].object, batch@[b].object)
                ==> batch@[a].object.metadata.resource_version
                <= batch@[b].object.metadata.resource_version,
    ensures
        versions_ordered(dispatched(observed(state, Signal::Batch(batch)))),
{
    let after = observed(state, Signal::Batch(batch));
    assert(after.queue =~= normalized_all(batch@));
    lemma_versions_stay_ordered(after);
}

/// The cursor after a batch that is not empty is the resource version of one
/// of its notifications, and none of them has a higher one.
pub proof fn lemma_cursor_is_highest_of_batch<P>(
    cursor: WatchCursor,
    batch: Seq<RawNotification<P>>,
)
    requires
        batch.len() > 0,
    ensures
        advanced(cursor, batch).last_resource_version == Some(highest_version(batch)),
        forall|i: int|
            0 <= i < batch.len() ==> (#[trigger] batch[i]).resource_version <= highest_version(
                batch,
            ),
        exists|i: int| 0 <= i < batch.len() && batch[i].resource_version == highest_version(batch),
    decreases batch.len(),
{
    let front = batch.drop_last();
    if front.len() > 0 {
        lemma_cursor_is_highest_of_batch(cursor, front);
        let at = choose|i: int|
            0 <= i < front.len() && front[i].resource_version == highest_version(front);
        assert forall|i: int| 0 <= i < batch.len() implies (#[trigger] batch[i]).resource_version
            <= highest_version(batch) by {
            if i < front.len() {
                assert(batch[i] == front[i]);
            }
        }
        if highest_version(front) < batch.last().resource_version {
            assert(batch[batch.len() - 1].resource_version == highest_version(batch));
        } else {
            assert(batch[at] == front[at]);
        }
    } else {
        assert(highest_version(front) == 0);
        assert(batch[0].resource_version == highest_version(batch));
    }
}

/// Resumption after a transient failure: the informer recovers with the
/// cursor and the queue that it had, asks for a session from that cursor,
/// and watches again from it once the session is open. Nothing that was
/// enqueued is dropped.
pub proof fn lemma_transient_failure_resumes_at_cursor<P>(state: InformerState<P>)
    requires
        state.phase == Phase::Watching,
    ensures
        ({
            let lost = observed(state, Signal::Failed(SessionFailure::Transient));
            let back = observed(settled(lost), Signal::Opened);
            &&& lost.phase == Phase::Recovering
            &&& lost.cursor == state.cursor
            &&& lost.queue == state.queue
            &&& diagnosed(state, Signal::<P>::Failed(SessionFailure::Transient)).is_none()
            &&& decided(lost) == Action::<P>::Open {
                cursor: state.cursor,
                delay_ms: backoff_ms(state.policy, 0) as u64,
            }
            &&& back.phase == Phase::Watching
            &&& back.cursor == state.cursor
            &&& back.queue == state.queue
        }),
{
}

/// Gap observability: when the server closes the session, the informer
/// diagnoses a gap that names the collection, and asks for a session from
/// the server's current state, not from the cursor that it had.
pub proof fn lemma_closed_session_is_a_diagnosed_gap<P>(state: InformerState<P>)
    requires
        state.phase == Phase::Watching,
    ensures
        ({
            let lost = observed(state, Signal::Failed(SessionFailure::Closed));
            &&& diagnosed(state, Signal::<P>::Failed(SessionFailure::Closed)) == Some(
                Diagnostic::Gap { kind: state.scope.kind, namespace: state.scope.namespace },
            )
            &&& lost.phase == Phase::Recovering
            &&& lost.queue == state.queue
            &&& decided(lost) == Action::<P>::Open {
                cursor: WatchCursor { last_resource_version: None },
                delay_ms: backoff_ms(state.policy, 0) as u64,
            }
        }),
{
}

/// While an informer recovers, every action that it decides on is to open a
/// session from the cursor that it recovers with, and a failure to open one
/// leaves that cursor and the queue alone.
pub proof fn lemma_recovery_keeps_cursor<P>(state: InformerState<P>)
    requires
        state.phase == Phase::Recovering,
    ensures
        decided(state) matches Action::Open { cursor, delay_ms } && cursor == state.cursor
            && delay_ms == backoff_ms(state.policy, state.failed_attempts),
        settled(state) == state,
        observed(state, Signal::OpenFailed).cursor == state.cursor,
        observed(state, Signal::OpenFailed).queue == state.queue,
        observed(state, Signal::OpenFailed).phase == Phase::Recovering || observed(
            state,
            Signal::OpenFailed,
        ).phase == Phase::Stopped(StopReason::RetriesExhausted),
{
    crate::retry::lemma_backoff_monotone(state.policy, state.failed_attempts, state.failed_attempts);
}

/// Handler isolation: whatever the handler returns, the informer is after
/// the report as it was before, so the events that wait are dispatched as if
/// the handler had not failed. The failure itself is diagnosed.
pub proof fn lemma_handler_failure_is_local<P>(
    state: InformerState<P>,
    outcome: Result<(), HandlerError>,
)
    ensures
        observed(state, Signal::Handled(outcome)) == state,
        decided(observed(state, Signal::Handled(outcome))) == decided(state),
        hands_out(state.phase) ==> dispatched(observed(state, Signal::Handled(outcome)))
            == deliveries(state.queue),
        outcome matches Err(error) ==> diagnosed(state, Signal::<P>::Handled(outcome)) == Some(
            Diagnostic::HandlerFailed(error),
        ),
        outcome is Ok ==> diagnosed(state, Signal::<P>::Handled(outcome)).is_none(),
{
    if hands_out(state.phase) {
        lemma_dispatches_in_queue_order(state);
    }
}

/// Cancellation drains: an informer that has not stopped dispatches, once
/// cancellation is requested, every event that waits and that the
/// application gets to see, in queue order, and then stops as cancelled.
pub proof fn lemma_cancellation_drains<P>(state: InformerState<P>)
    requires
        !(state.phase is Stopped),
    ensures
        cancelled(state).phase == Phase::Draining,
        cancelled(state).queue == state.queue,
        dispatched(cancelled(state)) == deliveries(state.queue),
        flushed(cancelled(state)).phase == Phase::Stopped(StopReason::Cancelled),
        decided(flushed(cancelled(state))) == Action::<P>::Halt(StopReason::Cancelled),
{
    lemma_dispatches_in_queue_order(cancelled(state));
}

/// Once cancellation has taken effect, one turn of the driver, whatever it
/// reports, leaves it in effect, and the informer asks neither for a session
/// nor for a read.
pub proof fn lemma_winding_down_turn<P>(state: InformerState<P>, signal: Signal<P>, cancel: bool)
    requires
        winding_down(state.phase),
    ensures
        winding_down(pending(state, signal, cancel).phase),
        winding_down(stepped(state, signal, cancel).phase),
        !(decided(pending(state, signal, cancel)) is Open),
        !(decided(pending(state, signal, cancel)) is Poll),
{
}

/// A turn with a request for cancellation puts cancellation into effect,
/// whatever the phase before it and whatever is reported with it.
pub proof fn lemma_cancel_takes_effect<P>(state: InformerState<P>, signal: Signal<P>)
    ensures
        winding_down(pending(state, signal, true).phase),
        winding_down(stepped(state, signal, true).phase),
        !(decided(pending(state, signal, true)) is Open),
        !(decided(pending(state, signal, true)) is Poll),
{
}

/// No session after cancellation: once cancellation has taken effect, it
/// stays in effect through any turns of the driver, and no action after
/// them is to open a session or to read from one.
pub proof fn lemma_no_session_after_cancellation<P>(
    state: InformerState<P>,
    turns: Seq<(Signal<P>, bool)>,
)
    requires
        winding_down(state.phase),
    ensures
        winding_down(after_turns(state, turns).phase),
        !(decided(after_turns(state, turns)) is Open),
        !(decided(after_turns(state, turns)) is Poll),
    decreases turns.len(),
{
    if turns.len() > 0 {
        lemma_no_session_after_cancellation(state, turns.drop_last());
        lemma_winding_down_turn(
            after_turns(state, turns.drop_last()),
            turns.last().0,
            turns.last().1,
        );
    }
}

/// A stopped informer stays stopped, for the same reason, and all it ever
/// says is to halt.
pub proof fn lemma_stopped_is_final<P>(state: InformerState<P>, signal: Signal<P>, cancel: bool)
    requires
        state.phase is Stopped,
    ensures
        stepped(state, signal, cancel) == state,
        decided(pending(state, signal, cancel)) == Action::<P>::Halt(state.phase->Stopped_0),
{
}

} // verus!
