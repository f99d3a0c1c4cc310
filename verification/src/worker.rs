//! A session's relay workers, and its idle watchdog.
//!
//! A worker waits for the first of: a datagram from the client, a segment
//! from the server, or the session's cancellation. It relays what came, and
//! it ends the session when either side fails.
use vstd::prelude::*;

verus! {

/// Where a worker is.
#[derive(PartialEq, Eq, Structural, Clone, Copy, Debug)]
pub enum WorkerPhase {
    /// Waiting for traffic or cancellation.
    Waiting,
    /// Sending a client datagram to the server.
    ToServer,
    /// Sending a server segment to the client.
    ToClient,
    /// Done; the worker has returned.
    Finished,
}

/// What a worker learned.
#[allow(inconsistent_fields)]
#[derive(PartialEq, Eq, Structural, Clone, Copy, Debug)]
pub enum WorkerEvent {
    /// A datagram of `len` bytes came from the client.
    ClientDatagram { len: usize },
    /// The server connection gave a segment of `len` bytes, or closed (`None`).
    ServerSegment { len: Option<usize> },
    /// Sending to the server ended; `delivered` is false when the connection closed.
    ServerSendDone { delivered: bool },
    /// Sending to the client ended; `delivered` is false on a socket error.
    ClientSendDone { delivered: bool },
    /// The session was cancelled.
    Cancelled,
}

/// What a worker does next.
#[derive(PartialEq, Eq, Structural, Clone, Copy, Debug)]
pub enum WorkerAction {
    /// Send the first `len` bytes of the client buffer to the server.
    SendToServer { len: usize },
    /// Send the first `len` bytes of the server buffer to the client.
    SendToClient { len: usize },
    /// Tell the watchdog that traffic passed, and wait again.
    NoteActivity,
    /// Cancel the whole session and return.
    CancelSession,
    /// Return: the session was cancelled elsewhere.
    Exit,
    /// The event does not belong to the current phase; nothing changes.
    Ignore,
}

/// How a worker answers an event.
pub open spec fn spec_worker_step(phase: WorkerPhase, event: WorkerEvent) -> (WorkerPhase, WorkerAction) {
    match (phase, event) {
        (WorkerPhase::Waiting, WorkerEvent::ClientDatagram { len }) =>
            (WorkerPhase::ToServer, WorkerAction::SendToServer { len }),
        (WorkerPhase::Waiting, WorkerEvent::ServerSegment { len }) => match len {
            Some(n) => if n > 0 {
                (WorkerPhase::ToClient, WorkerAction::SendToClient { len: n })
            } else {
                (WorkerPhase::Waiting, WorkerAction::NoteActivity)
            },
            None => (WorkerPhase::Finished, WorkerAction::CancelSession),
        },
        (WorkerPhase::Waiting, WorkerEvent::Cancelled) => (WorkerPhase::Finished, WorkerAction::Exit),
        (WorkerPhase::ToServer, WorkerEvent::ServerSendDone { delivered }) =>
            if delivered {
                (WorkerPhase::Waiting, WorkerAction::NoteActivity)
            } else {
                (WorkerPhase::Finished, WorkerAction::CancelSession)
            },
        (WorkerPhase::ToClient, WorkerEvent::ClientSendDone { delivered }) =>
            if delivered {
                (WorkerPhase::Waiting, WorkerAction::NoteActivity)
            } else {
                (WorkerPhase::Finished, WorkerAction::CancelSession)
            },
        _ => (phase, WorkerAction::Ignore),
    }
}

/// Answers one event of a worker.
pub fn worker_step(phase: WorkerPhase, event: WorkerEvent) -> (r: (WorkerPhase, WorkerAction))
    ensures
        r == spec_worker_step(phase, event),
        phase == WorkerPhase::Waiting ==> (event matches WorkerEvent::ClientDatagram { len }
            ==> r == (WorkerPhase::ToServer, WorkerAction::SendToServer { len })),
        phase == WorkerPhase::Waiting ==> (event matches WorkerEvent::ServerSegment { len: Some(n) }
            ==> n > 0 ==> r == (WorkerPhase::ToClient, WorkerAction::SendToClient { len: n })),
{
    match (phase, event) {
        (WorkerPhase::Waiting, WorkerEvent::ClientDatagram { len }) =>
            (WorkerPhase::ToServer, WorkerAction::SendToServer { len }),
        (WorkerPhase::Waiting, WorkerEvent::ServerSegment { len }) => match len {
            Some(n) => if n > 0 {
                (WorkerPhase::ToClient, WorkerAction::SendToClient { len: n })
            } else {
                (WorkerPhase::Waiting, WorkerAction::NoteActivity)
            },
            None => (WorkerPhase::Finished, WorkerAction::CancelSession),
        },
        (WorkerPhase::Waiting, WorkerEvent::Cancelled) => (WorkerPhase::Finished, WorkerAction::Exit),
        (WorkerPhase::ToServer, WorkerEvent::ServerSendDone { delivered }) =>
            if delivered {
                (WorkerPhase::Waiting, WorkerAction::NoteActivity)
            } else {
                (WorkerPhase::Finished, WorkerAction::CancelSession)
            },
        (WorkerPhase::ToClient, WorkerEvent::ClientSendDone { delivered }) =>
            if delivered {
                (WorkerPhase::Waiting, WorkerAction::NoteActivity)
            } else {
                (WorkerPhase::Finished, WorkerAction::CancelSession)
            },
        _ => (phase, WorkerAction::Ignore),
    }
}

/// A waiting worker relays every datagram and every non-empty segment whole:
/// a client datagram of `len` bytes goes to the server as `len` bytes, and a
/// server segment of `n > 0` bytes goes to the client as `n` bytes.
pub proof fn lemma_worker_relays_whole(len: usize, n: usize)
    ensures
        spec_worker_step(WorkerPhase::Waiting, WorkerEvent::ClientDatagram { len })
            == (WorkerPhase::ToServer, WorkerAction::SendToServer { len }),
        n > 0 ==> spec_worker_step(WorkerPhase::Waiting, WorkerEvent::ServerSegment { len: Some(n) })
            == (WorkerPhase::ToClient, WorkerAction::SendToClient { len: n }),
        spec_worker_step(WorkerPhase::Waiting, WorkerEvent::ServerSegment { len: Some(0) })
            == (WorkerPhase::Waiting, WorkerAction::NoteActivity),
{
}

/// A finished worker stays finished and does nothing more.
pub proof fn lemma_finished_is_final(event: WorkerEvent)
    ensures
        spec_worker_step(WorkerPhase::Finished, event) == (WorkerPhase::Finished, WorkerAction::Ignore),
{
}

/// A worker never sends an empty datagram to the client.
pub proof fn lemma_no_empty_datagram_to_client(phase: WorkerPhase, event: WorkerEvent)
    ensures
        spec_worker_step(phase, event).1 matches WorkerAction::SendToClient { len } ==> len > 0,
{
}

/// A worker finishes exactly when it cancels the session or sees it cancelled,
/// and it cancels the session exactly when the server connection closes or a
/// send fails.
pub proof fn lemma_worker_finishes_only_on_failure_or_cancel(phase: WorkerPhase, event: WorkerEvent)
    requires
        phase != WorkerPhase::Finished,
    ensures
        ({
            let (p, a) = spec_worker_step(phase, event);
            &&& (p == WorkerPhase::Finished <==> (a == WorkerAction::CancelSession || a == WorkerAction::Exit))
            &&& (a == WorkerAction::CancelSession <==> (
                (phase == WorkerPhase::Waiting && event == (WorkerEvent::ServerSegment { len: None }))
                || (phase == WorkerPhase::ToServer && event == (WorkerEvent::ServerSendDone { delivered: false }))
                || (phase == WorkerPhase::ToClient && event == (WorkerEvent::ClientSendDone { delivered: false }))
            ))
        }),
{
}

/// Every delivered relay is reported to the watchdog as activity.
pub proof fn lemma_delivery_is_activity(delivered_to_server: bool, delivered_to_client: bool)
    ensures
        delivered_to_server ==> spec_worker_step(WorkerPhase::ToServer, WorkerEvent::ServerSendDone { delivered: delivered_to_server })
            == (WorkerPhase::Waiting, WorkerAction::NoteActivity),
        delivered_to_client ==> spec_worker_step(WorkerPhase::ToClient, WorkerEvent::ClientSendDone { delivered: delivered_to_client })
            == (WorkerPhase::Waiting, WorkerAction::NoteActivity),
{
}

/// What a session's idle watchdog learned.
#[derive(PartialEq, Eq, Structural, Clone, Copy, Debug)]
pub enum WatchdogEvent {
    /// The idle period passed with no traffic.
    Elapsed,
    /// A worker reported traffic.
    Activity,
    /// The session was cancelled.
    Cancelled,
}

/// What the watchdog does next.
#[derive(PartialEq, Eq, Structural, Clone, Copy, Debug)]
pub enum WatchdogAction {
    /// Start a fresh idle period.
    Rearm,
    /// Remove the client from the table, cancel the session, and return.
    CloseIdle,
    /// Remove the client from the table and return.
    Close,
}

/// How the watchdog answers an event.
pub open spec fn spec_watchdog_step(event: WatchdogEvent) -> WatchdogAction {
    match event {
        WatchdogEvent::Elapsed => WatchdogAction::CloseIdle,
        WatchdogEvent::Activity => WatchdogAction::Rearm,
        WatchdogEvent::Cancelled => WatchdogAction::Close,
    }
}

/// Answers one event of the watchdog.
pub fn watchdog_step(event: WatchdogEvent) -> (a: WatchdogAction)
    ensures
        a == spec_watchdog_step(event),
        event == WatchdogEvent::Elapsed ==> a == WatchdogAction::CloseIdle,
        event == WatchdogEvent::Activity ==> a == WatchdogAction::Rearm,
        event == WatchdogEvent::Cancelled ==> a == WatchdogAction::Close,
{
    match event {
        WatchdogEvent::Elapsed => WatchdogAction::CloseIdle,
        WatchdogEvent::Activity => WatchdogAction::Rearm,
        WatchdogEvent::Cancelled => WatchdogAction::Close,
    }
}

/// Whether the watchdog's action removes the client from the table.
pub open spec fn ends_session(a: WatchdogAction) -> bool {
    a == WatchdogAction::CloseIdle || a == WatchdogAction::Close
}

/// The watchdog removes the client's entry whenever the session stops, for
/// whatever reason; only activity keeps it.
pub proof fn lemma_watchdog_removes_on_every_stop(event: WatchdogEvent)
    ensures
        ends_session(spec_watchdog_step(event)) <==> event != WatchdogEvent::Activity,
        spec_watchdog_step(event) == WatchdogAction::CloseIdle <==> event == WatchdogEvent::Elapsed,
{
}

} // verus!
