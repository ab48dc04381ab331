//! End-to-end scenarios over the session core: id assignment, watch
//! rewriting, shutdown sequencing, and reconnection.

use zk_session::connection::Connection;
use zk_session::packetizer::{Packetizer, PacketizerState};
use zk_session::queue::SessionQueue;
use zk_session::request::Request;
use zk_session::watch::{Watch, WatchType};

fn get_data(path: &[u8], watch: Watch) -> Request {
    Request::GetData {
        path: path.to_vec(),
        watch,
    }
}

fn get_children(path: &[u8], watch: Watch) -> Request {
    Request::GetChildren {
        path: path.to_vec(),
        watch,
    }
}

fn exists_req(path: &[u8], watch: Watch) -> Request {
    Request::Exists {
        path: path.to_vec(),
        watch,
    }
}

fn live_connection(p: &Packetizer) -> &Connection {
    match &p.state {
        PacketizerState::Connected(c) => c,
        PacketizerState::Reconnecting => panic!("expected a live connection"),
    }
}

fn watch_of(req: &Request) -> Watch {
    match req {
        Request::GetData { watch, .. } => *watch,
        Request::GetChildren { watch, .. } => *watch,
        Request::Exists { watch, .. } => *watch,
        Request::Other { .. } => Watch::NoWatch,
    }
}

const CLOSE_PACKET: [u8; 12] = [0, 0, 0, 8, 0, 0, 0, 0, 0xff, 0xff, 0xff, 0xf5];

#[test]
fn scenario_three_requests() {
    // A (get-data, Custom), B (exists, no watch), C (get-children, Custom)
    let mut q = SessionQueue::new();
    q.send(get_data(b"/a", Watch::Custom(7)), 100).unwrap();
    q.send(exists_req(b"/b", Watch::NoWatch), 101).unwrap();
    q.send(get_children(b"/c", Watch::Custom(9)), 102).unwrap();

    let mut p = Packetizer::new(Connection::new());
    p.poll(&mut q);

    let c = live_connection(&p);
    assert_eq!(c.sent.len(), 3);
    assert_eq!(
        c.sent.iter().map(|s| s.xid).collect::<Vec<i32>>(),
        vec![0, 1, 2]
    );
    // wire watch flags: A and C carry Global now, B stays unwatched
    assert_eq!(watch_of(&c.sent[0].req), Watch::Global);
    assert_eq!(watch_of(&c.sent[1].req), Watch::NoWatch);
    assert_eq!(watch_of(&c.sent[2].req), Watch::Global);
    // pending watchers at keys 0 (Data) and 2 (Child) only
    assert_eq!(c.watchers.len(), 2);
    assert_eq!(c.watchers[0].xid, 0);
    assert_eq!(c.watchers[0].reg.wtype, WatchType::Data);
    assert_eq!(c.watchers[0].reg.sink, 7);
    assert_eq!(c.watchers[0].reg.path, b"/a".to_vec());
    assert_eq!(c.watchers[1].xid, 2);
    assert_eq!(c.watchers[1].reg.wtype, WatchType::Child);
    assert_eq!(c.watchers[1].reg.sink, 9);
    assert_eq!(c.watchers[1].reg.path, b"/c".to_vec());
    // nothing written to the outbox by draining alone
    assert!(c.outbox.is_empty());
    assert!(!p.exiting);
}

#[test]
fn ids_consecutive_across_steps() {
    let mut q = SessionQueue::new();
    let mut p = Packetizer::new(Connection::new());
    q.send(exists_req(b"/x", Watch::NoWatch), 0).unwrap();
    q.send(exists_req(b"/y", Watch::NoWatch), 1).unwrap();
    p.poll(&mut q);
    q.send(get_data(b"/z", Watch::Global), 2).unwrap();
    q.send(exists_req(b"/w", Watch::NoWatch), 3).unwrap();
    q.send(exists_req(b"/v", Watch::NoWatch), 4).unwrap();
    p.poll(&mut q);

    let c = live_connection(&p);
    let ids: Vec<i32> = c.sent.iter().map(|s| s.xid).collect();
    assert_eq!(ids, vec![0, 1, 2, 3, 4]);
    let replies: Vec<u64> = c.sent.iter().map(|s| s.reply).collect();
    assert_eq!(replies, vec![0, 1, 2, 3, 4]);
    assert_eq!(p.xid, 5);
}

#[test]
fn close_packet_after_all_senders_gone() {
    let mut q = SessionQueue::new();
    let mut p = Packetizer::new(Connection::new());
    q.close();
    p.poll(&mut q);

    assert!(p.exiting);
    let c = live_connection(&p);
    assert!(c.sent.is_empty());
    assert_eq!(c.outbox, CLOSE_PACKET.to_vec());

    // a later step appends nothing further: exactly one close packet
    p.poll(&mut q);
    let c = live_connection(&p);
    assert_eq!(c.outbox, CLOSE_PACKET.to_vec());

    // and no request is accepted any more
    let back = q.send(exists_req(b"/late", Watch::NoWatch), 9);
    assert!(back.is_err());
}

#[test]
fn queued_requests_flushed_before_close() {
    let mut q = SessionQueue::new();
    let mut p = Packetizer::new(Connection::new());
    q.send(exists_req(b"/1", Watch::NoWatch), 1).unwrap();
    q.send(exists_req(b"/2", Watch::NoWatch), 2).unwrap();
    q.send(exists_req(b"/3", Watch::NoWatch), 3).unwrap();
    q.close();
    p.poll(&mut q);

    assert!(p.exiting);
    let c = live_connection(&p);
    assert_eq!(c.sent.len(), 3);
    assert_eq!(
        c.sent.iter().map(|s| s.xid).collect::<Vec<i32>>(),
        vec![0, 1, 2]
    );
    assert_eq!(c.outbox, CLOSE_PACKET.to_vec());
}

#[test]
fn send_after_close_returns_request() {
    let mut q = SessionQueue::new();
    q.close();
    let req = exists_req(b"/gone", Watch::Custom(3));
    match q.send(req, 42) {
        Err(back) => match back {
            Request::Exists { path, watch } => {
                assert_eq!(path, b"/gone".to_vec());
                assert_eq!(watch, Watch::Custom(3));
            }
            _ => panic!("wrong request handed back"),
        },
        Ok(()) => panic!("send on a closed queue must fail"),
    }
}

#[test]
fn reconnect_keeps_ids_and_queue() {
    let mut q = SessionQueue::new();
    let mut p = Packetizer::new(Connection::new());
    q.send(exists_req(b"/a", Watch::NoWatch), 1).unwrap();
    q.send(exists_req(b"/b", Watch::NoWatch), 2).unwrap();
    p.poll(&mut q);
    assert_eq!(p.xid, 2);

    // the connection's own step signalled a recoverable failure
    p.connection_lost();
    assert!(matches!(p.state, PacketizerState::Reconnecting));

    // callers keep submitting while reconnecting; nothing is drained
    q.send(exists_req(b"/c", Watch::NoWatch), 3).unwrap();
    p.poll(&mut q);
    assert_eq!(p.xid, 2);
    assert_eq!(q.len(), 1);
    assert!(!p.exiting);

    // recovery completes: draining resumes with no id lost or reassigned
    p.reconnect_complete(Connection::new());
    p.poll(&mut q);
    let c = live_connection(&p);
    assert_eq!(c.sent.len(), 1);
    assert_eq!(c.sent[0].xid, 2);
    assert_eq!(c.sent[0].reply, 3);
    assert_eq!(p.xid, 3);
}

#[test]
fn other_requests_drain_without_watchers() {
    let mut q = SessionQueue::new();
    let mut p = Packetizer::new(Connection::new());
    q.send(Request::Other { opcode: 1 }, 10).unwrap();
    q.send(Request::Other { opcode: 9 }, 11).unwrap();
    p.poll(&mut q);

    let c = live_connection(&p);
    assert_eq!(c.sent.len(), 2);
    assert!(c.watchers.is_empty());
    assert_eq!(q.len(), 0);
    assert!(!q.is_closed());
}

#[test]
fn empty_open_queue_drains_nothing() {
    let mut q = SessionQueue::new();
    let mut p = Packetizer::new(Connection::new());
    p.poll(&mut q);
    let c = live_connection(&p);
    assert!(c.sent.is_empty());
    assert!(c.outbox.is_empty());
    assert!(!p.exiting);
    assert_eq!(p.xid, 0);
}
