use phantun::address::SocketAddress;
use phantun::dispatch::{DispatchAction, DispatchEvent, Dispatcher, Phase};
use phantun::table::ConnectionTable;
use phantun::worker::{
    watchdog_step, worker_step, WatchdogAction, WatchdogEvent, WorkerAction, WorkerEvent,
    WorkerPhase,
};

fn client(port: u16) -> SocketAddress {
    SocketAddress::V4 { ip: 0x7f00_0001, port }
}

#[test]
fn table_register_lookup_remove() {
    let mut t = ConnectionTable::new();
    assert_eq!(t.len(), 0);
    t.register(client(1), 10);
    t.register(client(2), 20);
    assert_eq!(t.lookup(&client(1)), Some(10));
    assert_eq!(t.lookup(&client(2)), Some(20));
    assert_eq!(t.lookup(&client(3)), None);
    assert_eq!(t.len(), 2);
    t.remove(&client(1));
    assert_eq!(t.lookup(&client(1)), None);
    assert_eq!(t.lookup(&client(2)), Some(20));
    t.remove(&client(1));
    assert_eq!(t.len(), 1);
}

#[test]
fn new_client_opens_connection_then_is_forwarded() {
    let mut d = Dispatcher::new(4);
    assert_eq!(d.step(DispatchEvent::Datagram { from: client(1) }), DispatchAction::Connect);
    assert_eq!(d.phase(), Phase::Connecting { client: client(1) });
    assert_eq!(d.step(DispatchEvent::Connected { conn: Some(7) }), DispatchAction::SendFirst { conn: 7 });
    assert_eq!(
        d.step(DispatchEvent::FirstSent { delivered: true }),
        DispatchAction::StartSession { client: client(1), conn: 7, workers: 4 }
    );
    assert_eq!(d.phase(), Phase::Listening);
    assert_eq!(d.connection_of(&client(1)), Some(7));
    assert_eq!(d.sessions(), 1);
    assert_eq!(d.step(DispatchEvent::Datagram { from: client(1) }), DispatchAction::Forward { conn: 7 });
}

#[test]
fn failed_connect_discards_datagram() {
    let mut d = Dispatcher::new(2);
    d.step(DispatchEvent::Datagram { from: client(1) });
    assert_eq!(d.step(DispatchEvent::Connected { conn: None }), DispatchAction::Discard);
    assert_eq!(d.phase(), Phase::Listening);
    assert_eq!(d.connection_of(&client(1)), None);
}

#[test]
fn failed_first_send_discards_datagram() {
    let mut d = Dispatcher::new(2);
    d.step(DispatchEvent::Datagram { from: client(1) });
    d.step(DispatchEvent::Connected { conn: Some(3) });
    assert_eq!(d.step(DispatchEvent::FirstSent { delivered: false }), DispatchAction::Discard);
    assert_eq!(d.sessions(), 0);
}

#[test]
fn ended_session_is_forgotten_and_reconnects() {
    let mut d = Dispatcher::new(1);
    d.step(DispatchEvent::Datagram { from: client(1) });
    d.step(DispatchEvent::Connected { conn: Some(3) });
    d.step(DispatchEvent::FirstSent { delivered: true });
    assert_eq!(d.step(DispatchEvent::SessionEnded { client: client(1) }), DispatchAction::Forgotten);
    assert_eq!(d.connection_of(&client(1)), None);
    assert_eq!(d.step(DispatchEvent::Datagram { from: client(1) }), DispatchAction::Connect);
}

#[test]
fn out_of_phase_events_are_ignored() {
    let mut d = Dispatcher::new(1);
    assert_eq!(d.step(DispatchEvent::Connected { conn: Some(1) }), DispatchAction::Ignore);
    assert_eq!(d.step(DispatchEvent::FirstSent { delivered: true }), DispatchAction::Ignore);
    d.step(DispatchEvent::Datagram { from: client(1) });
    assert_eq!(d.step(DispatchEvent::Datagram { from: client(2) }), DispatchAction::Ignore);
    assert_eq!(d.phase(), Phase::Connecting { client: client(1) });
}

#[test]
fn worker_relays_client_datagram() {
    let (p, a) = worker_step(WorkerPhase::Waiting, WorkerEvent::ClientDatagram { len: 100 });
    assert_eq!((p, a), (WorkerPhase::ToServer, WorkerAction::SendToServer { len: 100 }));
    assert_eq!(
        worker_step(p, WorkerEvent::ServerSendDone { delivered: true }),
        (WorkerPhase::Waiting, WorkerAction::NoteActivity)
    );
    assert_eq!(
        worker_step(p, WorkerEvent::ServerSendDone { delivered: false }),
        (WorkerPhase::Finished, WorkerAction::CancelSession)
    );
}

#[test]
fn worker_relays_server_segment() {
    let (p, a) = worker_step(WorkerPhase::Waiting, WorkerEvent::ServerSegment { len: Some(60) });
    assert_eq!((p, a), (WorkerPhase::ToClient, WorkerAction::SendToClient { len: 60 }));
    assert_eq!(
        worker_step(p, WorkerEvent::ClientSendDone { delivered: false }),
        (WorkerPhase::Finished, WorkerAction::CancelSession)
    );
    assert_eq!(
        worker_step(p, WorkerEvent::ClientSendDone { delivered: true }),
        (WorkerPhase::Waiting, WorkerAction::NoteActivity)
    );
}

#[test]
fn worker_empty_segment_is_activity_only() {
    assert_eq!(
        worker_step(WorkerPhase::Waiting, WorkerEvent::ServerSegment { len: Some(0) }),
        (WorkerPhase::Waiting, WorkerAction::NoteActivity)
    );
}

#[test]
fn worker_stops_on_close_or_cancel() {
    assert_eq!(
        worker_step(WorkerPhase::Waiting, WorkerEvent::ServerSegment { len: None }),
        (WorkerPhase::Finished, WorkerAction::CancelSession)
    );
    assert_eq!(
        worker_step(WorkerPhase::Waiting, WorkerEvent::Cancelled),
        (WorkerPhase::Finished, WorkerAction::Exit)
    );
    assert_eq!(
        worker_step(WorkerPhase::Finished, WorkerEvent::ClientDatagram { len: 5 }),
        (WorkerPhase::Finished, WorkerAction::Ignore)
    );
}

#[test]
fn watchdog_decisions() {
    assert_eq!(watchdog_step(WatchdogEvent::Activity), WatchdogAction::Rearm);
    assert_eq!(watchdog_step(WatchdogEvent::Elapsed), WatchdogAction::CloseIdle);
    assert_eq!(watchdog_step(WatchdogEvent::Cancelled), WatchdogAction::Close);
}

#[test]
fn dispatcher_for_this_machine_has_workers() {
    let mut d = Dispatcher::for_available_cores();
    let n = d.workers();
    assert!(n >= 1);
    assert_eq!(d.sessions(), 0);
    d.step(DispatchEvent::Datagram { from: client(9) });
    d.step(DispatchEvent::Connected { conn: Some(1) });
    assert_eq!(
        d.step(DispatchEvent::FirstSent { delivered: true }),
        DispatchAction::StartSession { client: client(9), conn: 1, workers: n }
    );
}
