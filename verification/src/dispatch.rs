//! The listening loop's decisions: which connection a client's datagram goes
//! to, when a new connection is opened, and when it enters or leaves the
//! connection table.
use vstd::prelude::*;
use crate::address::SocketAddress;
use crate::table::{ConnId, ConnectionTable};

verus! {

/// Where the listening loop is with the client it is serving.
#[derive(PartialEq, Eq, Structural, Clone, Copy, Debug)]
pub enum Phase {
    /// Waiting for the next datagram.
    Listening,
    /// A datagram came from a client without a connection; a connection to
    /// the server is being opened for it.
    Connecting { client: SocketAddress },
    /// The connection is open; the client's first datagram is being sent on it.
    Greeting { client: SocketAddress, conn: ConnId },
}

/// What the loop learned.
#[derive(PartialEq, Eq, Structural, Clone, Copy, Debug)]
pub enum DispatchEvent {
    /// A datagram arrived from `from` on the listening socket.
    Datagram { from: SocketAddress },
    /// The attempt to open a connection ended: with the new connection, or with none.
    Connected { conn: Option<ConnId> },
    /// Sending the first datagram on the new connection ended: `delivered` is false
    /// when the connection was closed.
    FirstSent { delivered: bool },
    /// The session of `client` ended (idle too long, or one of its workers stopped).
    SessionEnded { client: SocketAddress },
}

/// What the loop does next.
#[derive(PartialEq, Eq, Structural, Clone, Copy, Debug)]
pub enum DispatchAction {
    /// Send the datagram on the client's connection.
    Forward { conn: ConnId },
    /// Open a new connection to the server.
    Connect,
    /// Send the datagram on the new connection.
    SendFirst { conn: ConnId },
    /// The client now has the connection: start `workers` relay workers and
    /// an idle watchdog for it.
    StartSession { client: SocketAddress, conn: ConnId, workers: usize },
    /// Drop the datagram and wait for the next one.
    Discard,
    /// The client's entry is gone from the table.
    Forgotten,
    /// The event does not belong to the current phase; nothing changes.
    Ignore,
}

/// The abstract state of the loop: the table and the phase.
pub struct DispatchState {
    pub table: Map<SocketAddress, ConnId>,
    pub phase: Phase,
}

/// How the loop answers an event: the table and phase afterwards, and the action.
pub open spec fn dispatch(
    table: Map<SocketAddress, ConnId>,
    phase: Phase,
    workers: usize,
    event: DispatchEvent,
) -> (Map<SocketAddress, ConnId>, Phase, DispatchAction) {
    match (phase, event) {
        (_, DispatchEvent::SessionEnded { client }) =>
            (table.remove(client), phase, DispatchAction::Forgotten),
        (Phase::Listening, DispatchEvent::Datagram { from }) =>
            if table.dom().contains(from) {
                (table, phase, DispatchAction::Forward { conn: table[from] })
            } else {
                (table, Phase::Connecting { client: from }, DispatchAction::Connect)
            },
        (Phase::Connecting { client }, DispatchEvent::Connected { conn }) =>
            match conn {
                Some(c) => (table, Phase::Greeting { client, conn: c }, DispatchAction::SendFirst { conn: c }),
                None => (table, Phase::Listening, DispatchAction::Discard),
            },
        (Phase::Greeting { client, conn }, DispatchEvent::FirstSent { delivered }) =>
            if delivered {
                (table.insert(client, conn), Phase::Listening, DispatchAction::StartSession { client, conn, workers })
            } else {
                (table, Phase::Listening, DispatchAction::Discard)
            },
        _ => (table, phase, DispatchAction::Ignore),
    }
}

/// The client that the loop is busy with, if any.
pub open spec fn pending_client(phase: Phase) -> Option<SocketAddress> {
    match phase {
        Phase::Listening => None,
        Phase::Connecting { client } => Some(client),
        Phase::Greeting { client, .. } => Some(client),
    }
}

/// The client being served has no entry yet.
pub open spec fn phase_consistent(table: Map<SocketAddress, ConnId>, phase: Phase) -> bool {
    match pending_client(phase) {
        Some(c) => !table.dom().contains(c),
        None => true,
    }
}

/// Calls `num_cpus::get`, the number of logical cores this process may use
/// (after CPU affinity and cgroup quotas). Its result depends on the machine;
/// the contract claims only what the crate documents of every outcome: it is
/// at least 1.
#[verifier::external_body]
fn available_cores() -> (n: usize)
    ensures
        n >= 1,
{
    num_cpus::get()
}

/// The listening loop's state.
pub struct Dispatcher {
    table: ConnectionTable,
    phase: Phase,
    workers: usize,
}

impl Dispatcher {
    pub closed spec fn state(&self) -> DispatchState {
        DispatchState { table: self.table@, phase: self.phase }
    }

    pub closed spec fn spec_workers(&self) -> usize {
        self.workers
    }

    /// The internal invariant: a well-formed table, and a client being served
    /// has no entry in it.
    pub closed spec fn wf(&self) -> bool {
        &&& self.table.wf()
        &&& phase_consistent(self.table@, self.phase)
    }

    /// A loop that listens, with an empty table, and starts `workers` relay
    /// workers for each session.
    pub fn new(workers: usize) -> (d: Dispatcher)
        ensures
            d.wf(),
            d.state().table == Map::<SocketAddress, ConnId>::empty(),
            d.state().phase == Phase::Listening,
            d.spec_workers() == workers,
    {
        Dispatcher { table: ConnectionTable::new(), phase: Phase::Listening, workers }
    }

    /// A loop that listens, with an empty table, and starts one relay worker
    /// per available core for each session.
    pub fn for_available_cores() -> (d: Dispatcher)
        ensures
            d.wf(),
            d.state().table == Map::<SocketAddress, ConnId>::empty(),
            d.state().phase == Phase::Listening,
            d.spec_workers() >= 1,
    {
        Dispatcher::new(available_cores())
    }

    /// How many relay workers each session gets.
    pub fn workers(&self) -> (n: usize)
        ensures
            n == self.spec_workers(),
    {
        self.workers
    }

    /// The phase the loop is in.
    pub fn phase(&self) -> (p: Phase)
        ensures
            p == self.state().phase,
    {
        self.phase
    }

    /// The connection of a client, if it has one.
    pub fn connection_of(&self, client: &SocketAddress) -> (r: Option<ConnId>)
        requires
            self.wf(),
        ensures
            r == (if self.state().table.dom().contains(*client) {
                Some(self.state().table[*client])
            } else {
                None
            }),
    {
        self.table.lookup(client)
    }

    /// Number of clients with an open session.
    pub fn sessions(&self) -> (n: usize)
        requires
            self.wf(),
        ensures
            n == self.state().table.len(),
    {
        self.table.len()
    }

    /// Answers one event.
    pub fn step(&mut self, event: DispatchEvent) -> (a: DispatchAction)
        requires
            old(self).wf(),
        ensures
            final(self).wf(),
            final(self).spec_workers() == old(self).spec_workers(),
            (final(self).state().table, final(self).state().phase, a) == dispatch(
                old(self).state().table,
                old(self).state().phase,
                old(self).spec_workers(),
                event,
            ),
    {
        match event {
            DispatchEvent::SessionEnded { client } => {
                self.table.remove(&client);
                DispatchAction::Forgotten
            },
            DispatchEvent::Datagram { from } => {
                match self.phase {
                    Phase::Listening => {
                        match self.table.lookup(&from) {
                            Some(conn) => DispatchAction::Forward { conn },
                            None => {
                                self.phase = Phase::Connecting { client: from };
                                DispatchAction::Connect
                            },
                        }
                    },
                    _ => DispatchAction::Ignore,
                }
            },
            DispatchEvent::Connected { conn } => {
                match self.phase {
                    Phase::Connecting { client } => {
                        match conn {
                            Some(c) => {
                                self.phase = Phase::Greeting { client, conn: c };
                                DispatchAction::SendFirst { conn: c }
                            },
                            None => {
                                self.phase = Phase::Listening;
                                DispatchAction::Discard
                            },
                        }
                    },
                    _ => DispatchAction::Ignore,
                }
            },
            DispatchEvent::FirstSent { delivered } => {
                match self.phase {
                    Phase::Greeting { client, conn } => {
                        self.phase = Phase::Listening;
                        if delivered {
                            self.table.register(client, conn);
                            DispatchAction::StartSession { client, conn, workers: self.workers }
                        } else {
                            DispatchAction::Discard
                        }
                    },
                    _ => DispatchAction::Ignore,
                }
            },
        }
    }
}

/// Every event keeps the invariant: the client being served has no entry.
pub proof fn lemma_dispatch_keeps_consistency(
    table: Map<SocketAddress, ConnId>,
    phase: Phase,
    workers: usize,
    event: DispatchEvent,
)
    requires
        phase_consistent(table, phase),
    ensures
        ({
            let (t, p, a) = dispatch(table, phase, workers, event);
            phase_consistent(t, p)
        }),
{
}

/// A client's entry never changes to another connection, and it leaves the
/// table only when that client's session ends.
pub proof fn lemma_entries_are_stable(
    table: Map<SocketAddress, ConnId>,
    phase: Phase,
    workers: usize,
    event: DispatchEvent,
    client: SocketAddress,
)
    requires
        phase_consistent(table, phase),
        table.dom().contains(client),
        event != (DispatchEvent::SessionEnded { client }),
    ensures
        ({
            let (t, p, a) = dispatch(table, phase, workers, event);
            t.dom().contains(client) && t[client] == table[client]
        }),
{
}

/// While listening, a datagram from a client with a connection goes to that
/// connection, and nothing changes.
pub proof fn lemma_known_client_is_forwarded(
    table: Map<SocketAddress, ConnId>,
    workers: usize,
    from: SocketAddress,
)
    requires
        table.dom().contains(from),
    ensures
        dispatch(table, Phase::Listening, workers, DispatchEvent::Datagram { from }) == (
            table,
            Phase::Listening,
            DispatchAction::Forward { conn: table[from] },
        ),
{
}

/// A client without a connection gets one: after its datagram, a successful
/// connect and a delivered first datagram, its session starts with the new
/// connection, and its next datagram is forwarded on it.
pub proof fn lemma_new_client_gets_session(
    table: Map<SocketAddress, ConnId>,
    workers: usize,
    from: SocketAddress,
    conn: ConnId,
)
    requires
        !table.dom().contains(from),
    ensures
        ({
            let (t1, p1, a1) = dispatch(table, Phase::Listening, workers, DispatchEvent::Datagram { from });
            let (t2, p2, a2) = dispatch(t1, p1, workers, DispatchEvent::Connected { conn: Some(conn) });
            let (t3, p3, a3) = dispatch(t2, p2, workers, DispatchEvent::FirstSent { delivered: true });
            let (t4, p4, a4) = dispatch(t3, p3, workers, DispatchEvent::Datagram { from });
            &&& a1 == DispatchAction::Connect
            &&& a2 == (DispatchAction::SendFirst { conn })
            &&& a3 == (DispatchAction::StartSession { client: from, conn, workers })
            &&& t3 == table.insert(from, conn)
            &&& p3 == Phase::Listening
            &&& a4 == (DispatchAction::Forward { conn })
        }),
{
}

/// A failed connect, or a first datagram that could not be sent, leaves the
/// table as it was and the loop listening again.
pub proof fn lemma_failed_open_changes_nothing(
    table: Map<SocketAddress, ConnId>,
    workers: usize,
    from: SocketAddress,
    conn: ConnId,
)
    requires
        !table.dom().contains(from),
    ensures
        ({
            let (t1, p1, a1) = dispatch(table, Phase::Listening, workers, DispatchEvent::Datagram { from });
            let (t2, p2, a2) = dispatch(t1, p1, workers, DispatchEvent::Connected { conn: None });
            t2 == table && p2 == Phase::Listening && a2 == DispatchAction::Discard
        }),
        ({
            let (t1, p1, a1) = dispatch(table, Phase::Listening, workers, DispatchEvent::Datagram { from });
            let (t2, p2, a2) = dispatch(t1, p1, workers, DispatchEvent::Connected { conn: Some(conn) });
            let (t3, p3, a3) = dispatch(t2, p2, workers, DispatchEvent::FirstSent { delivered: false });
            t3 == table && p3 == Phase::Listening && a3 == DispatchAction::Discard
        }),
{
}

/// Once a client's session has ended, it has no entry, and its next datagram
/// opens a new connection.
pub proof fn lemma_ended_session_reconnects(
    table: Map<SocketAddress, ConnId>,
    workers: usize,
    client: SocketAddress,
)
    ensures
        ({
            let (t1, p1, a1) = dispatch(table, Phase::Listening, workers, DispatchEvent::SessionEnded { client });
            let (t2, p2, a2) = dispatch(t1, p1, workers, DispatchEvent::Datagram { from: client });
            &&& !t1.dom().contains(client)
            &&& a2 == DispatchAction::Connect
            &&& p2 == (Phase::Connecting { client })
        }),
{
}

} // verus!
