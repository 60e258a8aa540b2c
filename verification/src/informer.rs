//! The informer: the state machine that decides what the driver of a watch
//! does next.
//!
//! The driver performs one action at a time (open a session, read from it,
//! call the handler) and reports the outcome as a [`Signal`]. The informer
//! answers with the next [`Action`]. It never blocks and does no I/O.

use vstd::prelude::*;
use crate::event::ChangeEvent;
use crate::event::RawNotification;
use crate::event::normalized;
use crate::queue::EventQueue;
use crate::queue::skip_hidden;
use crate::retry::RetryPolicy;
use crate::retry::backoff_ms;
use crate::retry::gives_up;

verus! {

/// Why an informer stopped.
#[derive(Clone, Copy, Debug, PartialEq, Eq, Structural)]
pub enum StopReason {
    /// Cancellation was requested and the queue has been flushed.
    Cancelled,
    /// The session reported a failure that cannot be recovered from.
    Fatal,
    /// Too many attempts in a row to open a session again failed.
    RetriesExhausted,
}

/// The states of the informer.
#[derive(Clone, Copy, Debug, PartialEq, Eq, Structural)]
pub enum Phase {
    /// No session has been opened yet.
    Starting,
    /// A session is open.
    Watching,
    /// The session was lost and is being opened again.
    Recovering,
    /// Cancellation was requested; what is queued is still handed out.
    Draining,
    /// The end: nothing more is handed out and nothing is opened.
    Stopped(StopReason),
}

/// How reading from a session can fail.
#[derive(Clone, Copy, Debug, PartialEq, Eq, Structural)]
pub enum SessionFailure {
    /// The server ended the session; it can only be taken up again from the
    /// server's current state, and changes in between may be missed.
    Closed,
    /// The connection was interrupted; the session can be taken up again
    /// where it was.
    Transient,
    /// Nothing can be done about it.
    Fatal,
}

/// The position from which a watch is taken up again.
#[derive(Clone, Copy, Debug, PartialEq, Eq, Structural)]
pub struct WatchCursor {
    /// The resource version that was enqueued last, or `None` for the
    /// server's current state.
    pub last_resource_version: Option<u64>,
}

/// The collection that is watched.
#[derive(Clone, Debug, PartialEq, Eq)]
pub struct Scope {
    pub kind: String,
    pub namespace: String,
}

/// The failure of the application's handler on one event.
#[derive(Clone, Debug, PartialEq, Eq)]
pub struct HandlerError {
    pub message: String,
}

/// What the driver reports to the informer.
#[derive(Debug, PartialEq, Eq)]
pub enum Signal<P> {
    /// A session was opened.
    Opened,
    /// A session could not be opened.
    OpenFailed,
    /// Reading from the session gave these notifications, in this order;
    /// none when the read timed out.
    Batch(Vec<RawNotification<P>>),
    /// Reading from the session failed.
    Failed(SessionFailure),
    /// The handler returned.
    Handled(Result<(), HandlerError>),
}

/// What the driver is to do next.
#[derive(Clone, Debug, PartialEq, Eq)]
pub enum Action<P> {
    /// Wait `delay_ms` milliseconds at most, then open a session from
    /// `cursor`, and report `Opened` or `OpenFailed`.
    Open { cursor: WatchCursor, delay_ms: u64 },
    /// Read from the session, and report `Batch` or `Failed`.
    Poll,
    /// Hand the event to the handler, and report `Handled`.
    Dispatch(ChangeEvent<P>),
    /// Stop.
    Halt(StopReason),
}

/// Something that the operator of the process should get to know.
#[derive(Clone, Debug, PartialEq, Eq)]
pub enum Diagnostic {
    /// The watch of this collection is taken up again from the server's
    /// current state: changes made in between are not replayed.
    Gap { kind: String, namespace: String },
    /// The handler failed on one event; the next events are handed out as if
    /// it had not.
    HandlerFailed(HandlerError),
}

/// An action together with the diagnostic that the last signal gave rise to.
#[derive(Clone, Debug, PartialEq, Eq)]
pub struct Step<P> {
    pub action: Action<P>,
    pub diagnostic: Option<Diagnostic>,
}

/// The informer as a mathematical value.
pub struct InformerState<P> {
    pub phase: Phase,
    pub cursor: WatchCursor,
    /// The events that wait, oldest first.
    pub queue: Seq<ChangeEvent<P>>,
    /// The attempts to open a session again that failed in a row.
    pub failed_attempts: nat,
    pub policy: RetryPolicy,
    pub scope: Scope,
}

/// The highest resource version among `batch`, or 0 for an empty batch.
pub open spec fn highest_version<P>(batch: Seq<RawNotification<P>>) -> u64
    decreases batch.len(),
{
    if batch.len() == 0 {
        0
    } else {
        let before = highest_version(batch.drop_last());
        if before < batch.last().resource_version {
            batch.last().resource_version
        } else {
            before
        }
    }
}

/// The cursor after `batch` has been enqueued: at the highest resource
/// version of the batch, or where it was if the batch is empty.
pub open spec fn advanced<P>(cursor: WatchCursor, batch: Seq<RawNotification<P>>) -> WatchCursor {
    if batch.len() == 0 {
        cursor
    } else {
        WatchCursor { last_resource_version: Some(highest_version(batch)) }
    }
}

/// The change events that the notifications of `batch` are normalized into,
/// in the same order.
pub open spec fn normalized_all<P>(batch: Seq<RawNotification<P>>) -> Seq<ChangeEvent<P>> {
    Seq::new(batch.len(), |i: int| normalized(batch[i]))
}

/// The failure that a status of the server stands for, or that the lack of
/// one does when the connection broke or timed out: 410 (gone) is a session
/// that the server closed, 401 and 403 cannot be recovered from, and all
/// else is transient.
pub open spec fn failure_of(status: Option<u16>) -> SessionFailure {
    match status {
        Some(code) => if code == 410 {
            SessionFailure::Closed
        } else if code == 401 || code == 403 {
            SessionFailure::Fatal
        } else {
            SessionFailure::Transient
        },
        None => SessionFailure::Transient,
    }
}

impl SessionFailure {
    /// Sorts a failed read by the status that the server answered with, if
    /// it answered at all.
    pub fn from_status(status: Option<u16>) -> (failure: SessionFailure)
        ensures
            failure == failure_of(status),
    {
        match status {
            Some(410) => SessionFailure::Closed,
            Some(401) => SessionFailure::Fatal,
            Some(403) => SessionFailure::Fatal,
            _ => SessionFailure::Transient,
        }
    }
}

/// The informer after `signal` has been reported to it.
///
/// A signal that does not fit the phase leaves the informer as it is.
pub open spec fn observed<P>(state: InformerState<P>, signal: Signal<P>) -> InformerState<P> {
    match signal {
        Signal::Opened => match state.phase {
            Phase::Starting | Phase::Recovering => InformerState {
                phase: Phase::Watching,
                failed_attempts: 0,
                ..state
            },
            _ => state,
        },
        Signal::OpenFailed => match state.phase {
            Phase::Starting => InformerState { phase: Phase::Stopped(StopReason::Fatal), ..state },
            Phase::Recovering => if gives_up(state.policy, state.failed_attempts) {
                InformerState { phase: Phase::Stopped(StopReason::RetriesExhausted), ..state }
            } else {
                InformerState { failed_attempts: state.failed_attempts + 1, ..state }
            },
            _ => state,
        },
        Signal::Batch(batch) => match state.phase {
            Phase::Watching | Phase::Draining => InformerState {
                queue: state.queue + normalized_all(batch@),
                cursor: advanced(state.cursor, batch@),
                ..state
            },
            _ => state,
        },
        Signal::Failed(SessionFailure::Fatal) => match state.phase {
            Phase::Stopped(_) => state,
            _ => InformerState { phase: Phase::Stopped(StopReason::Fatal), ..state },
        },
        Signal::Failed(SessionFailure::Transient) => match state.phase {
            Phase::Watching => InformerState {
                phase: Phase::Recovering,
                failed_attempts: 0,
                ..state
            },
            _ => state,
        },
        Signal::Failed(SessionFailure::Closed) => match state.phase {
            Phase::Watching => InformerState {
                phase: Phase::Recovering,
                failed_attempts: 0,
                cursor: WatchCursor { last_resource_version: None },
                ..state
            },
            _ => state,
        },
        Signal::Handled(_) => state,
    }
}

/// The diagnostic that reporting `signal` to the informer gives rise to.
pub open spec fn diagnosed<P>(state: InformerState<P>, signal: Signal<P>) -> Option<Diagnostic> {
    match signal {
        Signal::Failed(SessionFailure::Closed) => match state.phase {
            Phase::Watching => Some(
                Diagnostic::Gap { kind: state.scope.kind, namespace: state.scope.namespace },
            ),
            _ => None,
        },
        Signal::Handled(Err(error)) => Some(Diagnostic::HandlerFailed(error)),
        _ => None,
    }
}

/// The informer after cancellation has been requested.
pub open spec fn cancelled<P>(state: InformerState<P>) -> InformerState<P> {
    match state.phase {
        Phase::Stopped(_) => state,
        _ => InformerState { phase: Phase::Draining, ..state },
    }
}

/// The action that the informer decides on.
pub open spec fn decided<P>(state: InformerState<P>) -> Action<P> {
    match state.phase {
        Phase::Starting => Action::Open { cursor: state.cursor, delay_ms: 0 },
        Phase::Recovering => Action::Open {
            cursor: state.cursor,
            delay_ms: backoff_ms(state.policy, state.failed_attempts) as u64,
        },
        Phase::Watching => if skip_hidden(state.queue).len() > 0 {
            Action::Dispatch(skip_hidden(state.queue)[0])
        } else {
            Action::Poll
        },
        Phase::Draining => if skip_hidden(state.queue).len() > 0 {
            Action::Dispatch(skip_hidden(state.queue)[0])
        } else {
            Action::Halt(StopReason::Cancelled)
        },
        Phase::Stopped(reason) => Action::Halt(reason),
    }
}

/// The informer after it has decided on an action: a dispatched event, and
/// what was hidden before it, has left the queue, and a draining informer
/// with nothing left to dispatch has stopped.
pub open spec fn settled<P>(state: InformerState<P>) -> InformerState<P> {
    match state.phase {
        Phase::Watching | Phase::Draining => if skip_hidden(state.queue).len() > 0 {
            InformerState { queue: skip_hidden(state.queue).drop_first(), ..state }
        } else if state.phase == Phase::Draining {
            InformerState {
                phase: Phase::Stopped(StopReason::Cancelled),
                queue: Seq::empty(),
                ..state
            }
        } else {
            InformerState { queue: Seq::empty(), ..state }
        },
        _ => state,
    }
}

/// The informer after `signal` has been reported, cancellation has been
/// requested if `cancel` is set, and the next action has been decided on.
pub open spec fn stepped<P>(state: InformerState<P>, signal: Signal<P>, cancel: bool)
    -> InformerState<P> {
    settled(pending(state, signal, cancel))
}

/// The informer between the report of `signal` and the decision that follows.
pub open spec fn pending<P>(state: InformerState<P>, signal: Signal<P>, cancel: bool)
    -> InformerState<P> {
    if cancel {
        cancelled(observed(state, signal))
    } else {
        observed(state, signal)
    }
}

/// The signal that reports how an attempt to open a session ended. A fatal
/// failure is reported as such; any other failure is one more attempt that
/// failed.
pub open spec fn open_signal<P>(outcome: Result<(), SessionFailure>) -> Signal<P> {
    match outcome {
        Ok(_) => Signal::Opened,
        Err(SessionFailure::Fatal) => Signal::Failed(SessionFailure::Fatal),
        Err(_) => Signal::OpenFailed,
    }
}

/// The signal that reports how a read from the session ended.
pub open spec fn read_signal<P>(outcome: Result<Vec<RawNotification<P>>, SessionFailure>) -> Signal<
    P,
> {
    match outcome {
        Ok(batch) => Signal::Batch(batch),
        Err(failure) => Signal::Failed(failure),
    }
}

impl<P> Signal<P> {
    /// Reports how an attempt to open a session ended.
    pub fn from_open(outcome: Result<(), SessionFailure>) -> (signal: Self)
        ensures
            signal == open_signal::<P>(outcome),
    {
        match outcome {
            Ok(_) => Signal::Opened,
            Err(SessionFailure::Fatal) => Signal::Failed(SessionFailure::Fatal),
            Err(_) => Signal::OpenFailed,
        }
    }

    /// Reports how a read from the session ended.
    pub fn from_read(outcome: Result<Vec<RawNotification<P>>, SessionFailure>) -> (signal: Self)
        ensures
            signal == read_signal(outcome),
    {
        match outcome {
            Ok(batch) => Signal::Batch(batch),
            Err(failure) => Signal::Failed(failure),
        }
    }
}

/// The state machine of one watch. Its view is an [`InformerState`].
pub struct Informer<P> {
    phase: Phase,
    cursor: WatchCursor,
    queue: EventQueue<P>,
    failed_attempts: u32,
    policy: RetryPolicy,
    scope: Scope,
}

impl<P> View for Informer<P> {
    type V = InformerState<P>;

    closed spec fn view(&self) -> InformerState<P> {
        InformerState {
            phase: self.phase,
            cursor: self.cursor,
            queue: self.queue@,
            failed_attempts: self.failed_attempts as nat,
            policy: self.policy,
            scope: self.scope,
        }
    }
}

impl<P> Informer<P> {
    /// An informer for the collection `scope` that has not opened a session
    /// yet. Its first action is to open one from the server's current state.
    pub fn new(scope: Scope, policy: RetryPolicy) -> (informer: Self)
        ensures
            informer@ == (InformerState {
                phase: Phase::Starting,
                cursor: WatchCursor { last_resource_version: None },
                queue: Seq::<ChangeEvent<P>>::empty(),
                failed_attempts: 0,
                policy,
                scope,
            }),
    {
        Informer {
            phase: Phase::Starting,
            cursor: WatchCursor { last_resource_version: None },
            queue: EventQueue::new(),
            failed_attempts: 0,
            policy,
            scope,
        }
    }

    /// The state that the informer is in.
    pub fn phase(&self) -> (phase: Phase)
        ensures
            phase == self@.phase,
    {
        self.phase
    }

    /// The position from which the watch would be taken up again.
    pub fn cursor(&self) -> (cursor: WatchCursor)
        ensures
            cursor == self@.cursor,
    {
        self.cursor
    }

    /// The number of events that wait in the queue.
    pub fn queued(&self) -> (n: usize)
        ensures
            n == self@.queue.len(),
    {
        self.queue.len()
    }

    /// The attempts to open a session again that failed in a row.
    pub fn failed_attempts(&self) -> (n: u32)
        ensures
            n == self@.failed_attempts,
    {
        self.failed_attempts
    }

    /// Whether the informer has stopped.
    pub fn is_stopped(&self) -> (stopped: bool)
        ensures
            stopped == (self@.phase is Stopped),
    {
        match self.phase {
            Phase::Stopped(_) => true,
            _ => false,
        }
    }

    /// Normalizes the notifications of `batch`, appends them to the queue in
    /// their order, and then moves the cursor.
    fn enqueue(&mut self, batch: Vec<RawNotification<P>>)
        ensures
            final(self)@ == (InformerState {
                queue: old(self)@.queue + normalized_all(batch@),
                cursor: advanced(old(self)@.cursor, batch@),
                ..old(self)@
            }),
    {
        let ghost all = batch@;
        let mut highest: u64 = 0;
        let mut any: bool = false;
        for raw in iter: batch.into_iter()
            invariant
                iter.seq() == all,
                any == (iter.index() > 0),
                highest == highest_version(all.subrange(0, iter.index() as int)),
                self@ == (InformerState {
                    queue: old(self)@.queue + normalized_all(
                        all.subrange(0, iter.index() as int),
                    ),
                    ..old(self)@
                }),
        {
            proof {
                let before = all.subrange(0, iter.index() as int);
                let after = all.subrange(0, iter.index() as int + 1);
                assert(after.drop_last() =~= before);
                assert(after.last() == raw);
                assert(normalized_all(after) =~= normalized_all(before).push(normalized(raw)));
                assert(old(self)@.queue + normalized_all(after) =~= (old(self)@.queue
                    + normalized_all(before)).push(normalized(raw)));
            }
            if raw.resource_version > highest {
                highest = raw.resource_version;
            }
            any = true;
            self.queue.push(raw.normalize());
        }
        proof {
            assert(all.subrange(0, all.len() as int) =~= all);
        }
        if any {
            self.cursor = WatchCursor { last_resource_version: Some(highest) };
        }
    }

    /// Takes in what the driver reports, and returns the diagnostic that the
    /// report gives rise to.
    ///
    /// A new session gives a watching informer. A batch is normalized and
    /// enqueued in its order, and the cursor moves to its highest resource
    /// version. A transient failure is recovered from at the cursor, a closed
    /// session from the server's current state, which is a gap and is
    /// diagnosed. A fatal failure stops the informer, and so does a failure to
    /// open the first session, or the last of too many failures in a row to
    /// open one again. A handler's failure is diagnosed and changes nothing.
    pub fn observe(&mut self, signal: Signal<P>) -> (diagnostic: Option<Diagnostic>)
        ensures
            final(self)@ == observed(old(self)@, signal),
            diagnostic == diagnosed(old(self)@, signal),
    {
        match signal {
            Signal::Opened => {
                match self.phase {
                    Phase::Starting | Phase::Recovering => {
                        self.phase = Phase::Watching;
                        self.failed_attempts = 0;
                    },
                    _ => {},
                }
                None
            },
            Signal::OpenFailed => {
                match self.phase {
                    Phase::Starting => {
                        self.phase = Phase::Stopped(StopReason::Fatal);
                    },
                    Phase::Recovering => {
                        if self.policy.gives_up_after(self.failed_attempts) {
                            self.phase = Phase::Stopped(StopReason::RetriesExhausted);
                        } else {
                            self.failed_attempts = self.failed_attempts + 1;
                        }
                    },
                    _ => {},
                }
                None
            },
            Signal::Batch(batch) => {
                match self.phase {
                    Phase::Watching | Phase::Draining => {
                        self.enqueue(batch);
                    },
                    _ => {},
                }
                None
            },
            Signal::Failed(SessionFailure::Fatal) => {
                match self.phase {
                    Phase::Stopped(_) => {},
                    _ => {
                        self.phase = Phase::Stopped(StopReason::Fatal);
                    },
                }
                None
            },
            Signal::Failed(SessionFailure::Transient) => {
                match self.phase {
                    Phase::Watching => {
                        self.phase = Phase::Recovering;
                        self.failed_attempts = 0;
                    },
                    _ => {},
                }
                None
            },
            Signal::Failed(SessionFailure::Closed) => {
                match self.phase {
                    Phase::Watching => {
                        self.phase = Phase::Recovering;
                        self.failed_attempts = 0;
                        self.cursor = WatchCursor { last_resource_version: None };
                        Some(
                            Diagnostic::Gap {
                                kind: self.scope.kind.clone(),
                                namespace: self.scope.namespace.clone(),
                            },
                        )
                    },
                    _ => None,
                }
            },
            Signal::Handled(Ok(_)) => None,
            Signal::Handled(Err(error)) => Some(Diagnostic::HandlerFailed(error)),
        }
    }

    /// Requests cancellation: an informer that has not stopped drains. From
    /// then on it opens no session and reads from none.
    pub fn cancel(&mut self)
        ensures
            final(self)@ == cancelled(old(self)@),
    {
        match self.phase {
            Phase::Stopped(_) => {},
            _ => {
                self.phase = Phase::Draining;
            },
        }
    }

    /// Decides what the driver does next.
    ///
    /// Before a session is open, that is to open one: at once at the start,
    /// after the wait of the retry policy when recovering. With a session
    /// open, the oldest event that the application gets to see is dispatched,
    /// and the session is read when there is none. A draining informer
    /// dispatches in the same way and stops when there is none.
    pub fn next_action(&mut self) -> (action: Action<P>)
        ensures
            action == decided(old(self)@),
            final(self)@ == settled(old(self)@),
    {
        match self.phase {
            Phase::Starting => Action::Open { cursor: self.cursor, delay_ms: 0 },
            Phase::Recovering => {
                let delay_ms = self.policy.delay_ms(self.failed_attempts);
                Action::Open { cursor: self.cursor, delay_ms }
            },
            Phase::Watching => {
                let next = self.queue.pop_dispatchable();
                assert(self@.queue =~= settled(old(self)@).queue);
                match next {
                    Some(event) => Action::Dispatch(event),
                    None => Action::Poll,
                }
            },
            Phase::Draining => {
                let next = self.queue.pop_dispatchable();
                assert(self@.queue =~= settled(old(self)@).queue);
                match next {
                    Some(event) => Action::Dispatch(event),
                    None => {
                        self.phase = Phase::Stopped(StopReason::Cancelled);
                        Action::Halt(StopReason::Cancelled)
                    },
                }
            },
            Phase::Stopped(reason) => Action::Halt(reason),
        }
    }

    /// One turn of the driver's loop: takes in `signal`, requests
    /// cancellation if `cancel` is set, and decides what the driver does
    /// next.
    pub fn step(&mut self, signal: Signal<P>, cancel: bool) -> (step: Step<P>)
        ensures
            final(self)@ == stepped(old(self)@, signal, cancel),
            step.action == decided(pending(old(self)@, signal, cancel)),
            step.diagnostic == diagnosed(old(self)@, signal),
    {
        let diagnostic = self.observe(signal);
        if cancel {
            self.cancel();
        }
        let action = self.next_action();
        Step { action, diagnostic }
    }
}

} // verus!
