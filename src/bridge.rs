//! The decisions of a worker that forwards one update stream of the player
//! onto a bounded channel. The host performs the I/O and reports what happened;
//! the worker state says what to do next. A worker connects once, forwards
//! every message it reads, in order, and ends for good on the first failure.

use vstd::prelude::*;

verus! {

/// Where a stream worker is in its life.
#[derive(Clone, Copy, Debug, PartialEq, Eq, Structural)]
pub enum WorkerState {
    Connecting,
    Streaming,
    Closed,
}

/// What the host observed while doing the worker's I/O.
#[derive(Clone, Copy, Debug, PartialEq, Eq, Structural)]
pub enum WorkerEvent {
    /// The connection and the stream are open.
    Connected,
    /// Dialling the player or opening the stream failed.
    ConnectFailed,
    /// A message was read from the stream.
    Received,
    /// The player closed the stream.
    StreamEnded,
    /// Reading the stream failed.
    StreamFailed,
    /// The consumer dropped its end of the channel.
    ConsumerGone,
}

/// The failures that end a worker or a one-shot call.
#[derive(Clone, Copy, Debug, PartialEq, Eq, Structural)]
pub enum SyncError {
    /// Dialling the player or opening the stream failed.
    ConnectionError,
    /// The player closed the stream or reading it failed.
    StreamTerminated,
    /// Nobody takes the updates any more.
    ConsumerGone,
    /// A one-shot command failed.
    CommandFailed,
}

/// What the host does next.
#[derive(Clone, Copy, Debug, PartialEq, Eq, Structural)]
pub enum WorkerAction {
    /// Read the next message of the stream.
    ReadNext,
    /// Send the message just read, waiting while the channel is full.
    Forward,
    /// Report the error upward, close the channel and end the worker.
    Fail(SyncError),
    /// End the worker without a report.
    Exit,
}

/// The next state and action of a worker in state `s` on event `e`. Once
/// closed a worker stays closed and does nothing; events that cannot occur in
/// a state leave the worker as it is and read on.
pub open spec fn worker_step_spec(s: WorkerState, e: WorkerEvent) -> (WorkerState, WorkerAction) {
    match (s, e) {
        (WorkerState::Closed, _) => (WorkerState::Closed, WorkerAction::Exit),
        (_, WorkerEvent::ConsumerGone) => (WorkerState::Closed, WorkerAction::Exit),
        (WorkerState::Connecting, WorkerEvent::Connected) => (WorkerState::Streaming, WorkerAction::ReadNext),
        (WorkerState::Connecting, WorkerEvent::ConnectFailed) => (
            WorkerState::Closed,
            WorkerAction::Fail(SyncError::ConnectionError),
        ),
        (WorkerState::Streaming, WorkerEvent::Received) => (WorkerState::Streaming, WorkerAction::Forward),
        (WorkerState::Streaming, WorkerEvent::StreamEnded) => (
            WorkerState::Closed,
            WorkerAction::Fail(SyncError::StreamTerminated),
        ),
        (WorkerState::Streaming, WorkerEvent::StreamFailed) => (
            WorkerState::Closed,
            WorkerAction::Fail(SyncError::StreamTerminated),
        ),
        (s, _) => (s, WorkerAction::ReadNext),
    }
}

/// Decides the worker's next state and action.
pub fn worker_step(s: WorkerState, e: WorkerEvent) -> (r: (WorkerState, WorkerAction))
    ensures
        r == worker_step_spec(s, e),
        r.1 == WorkerAction::Forward <==> (s == WorkerState::Streaming && e == WorkerEvent::Received),
        s == WorkerState::Closed ==> r.0 == WorkerState::Closed,
        r.0 == WorkerState::Closed <==> (r.1 is Fail || r.1 is Exit),
{
    match (s, e) {
        (WorkerState::Closed, _) => (WorkerState::Closed, WorkerAction::Exit),
        (_, WorkerEvent::ConsumerGone) => (WorkerState::Closed, WorkerAction::Exit),
        (WorkerState::Connecting, WorkerEvent::Connected) => (WorkerState::Streaming, WorkerAction::ReadNext),
        (WorkerState::Connecting, WorkerEvent::ConnectFailed) => (
            WorkerState::Closed,
            WorkerAction::Fail(SyncError::ConnectionError),
        ),
        (WorkerState::Streaming, WorkerEvent::Received) => (WorkerState::Streaming, WorkerAction::Forward),
        (WorkerState::Streaming, WorkerEvent::StreamEnded) => (
            WorkerState::Closed,
            WorkerAction::Fail(SyncError::StreamTerminated),
        ),
        (WorkerState::Streaming, WorkerEvent::StreamFailed) => (
            WorkerState::Closed,
            WorkerAction::Fail(SyncError::StreamTerminated),
        ),
        (s, _) => (s, WorkerAction::ReadNext),
    }
}

/// The actions of a worker that starts connecting and meets `events` in order.
pub open spec fn worker_run(s: WorkerState, events: Seq<WorkerEvent>) -> Seq<WorkerAction>
    decreases events.len(),
{
    if events.len() == 0 {
        Seq::empty()
    } else {
        let (n, a) = worker_step_spec(s, events[0]);
        seq![a] + worker_run(n, events.drop_first())
    }
}

/// The number of messages read while the stream was open, before the worker
/// ended.
pub open spec fn received_while_open(s: WorkerState, events: Seq<WorkerEvent>) -> nat
    decreases events.len(),
{
    if events.len() == 0 {
        0
    } else {
        let (n, _) = worker_step_spec(s, events[0]);
        (if s == WorkerState::Streaming && events[0] == WorkerEvent::Received {
            1nat
        } else {
            0nat
        }) + received_while_open(n, events.drop_first())
    }
}

/// The number of `Forward` actions in `actions`.
pub open spec fn forwards(actions: Seq<WorkerAction>) -> nat
    decreases actions.len(),
{
    if actions.len() == 0 {
        0
    } else {
        (if actions[0] == WorkerAction::Forward {
            1nat
        } else {
            0nat
        }) + forwards(actions.drop_first())
    }
}

/// No update is dropped: over any run, the worker forwards exactly as many
/// messages as it read while its stream was open.
pub proof fn lemma_no_update_dropped(s: WorkerState, events: Seq<WorkerEvent>)
    ensures
        forwards(worker_run(s, events)) == received_while_open(s, events),
    decreases events.len(),
{
    if events.len() > 0 {
        let (n, a) = worker_step_spec(s, events[0]);
        lemma_no_update_dropped(n, events.drop_first());
        let rest = worker_run(n, events.drop_first());
        assert((seq![a] + rest).drop_first() =~= rest);
    }
}

/// A closed worker forwards nothing more, whatever happens after.
pub proof fn lemma_closed_forwards_nothing(events: Seq<WorkerEvent>)
    ensures
        forwards(worker_run(WorkerState::Closed, events)) == 0,
    decreases events.len(),
{
    if events.len() > 0 {
        let rest = worker_run(WorkerState::Closed, events.drop_first());
        lemma_closed_forwards_nothing(events.drop_first());
        assert((seq![WorkerAction::Exit] + rest).drop_first() =~= rest);
    }
}

} // verus!
