//! The watch-rewrite transform and the framed control bytes, taken on
//! their own.

use zk_session::connection::Connection;
use zk_session::request::{prepare_request, Request, WatcherReg};
use zk_session::watch::{Watch, WatchType};

#[test]
fn custom_watch_downgraded_and_registered() {
    let req = Request::GetData {
        path: b"/node".to_vec(),
        watch: Watch::Custom(77),
    };
    let (wire, reg) = prepare_request(req);
    match wire {
        Request::GetData { path, watch } => {
            assert_eq!(path, b"/node".to_vec());
            assert_eq!(watch, Watch::Global);
        }
        _ => panic!("variant must be preserved"),
    }
    let WatcherReg { path, sink, wtype } = reg.expect("a Custom watch must be registered");
    assert_eq!(path, b"/node".to_vec());
    assert_eq!(sink, 77);
    assert_eq!(wtype, WatchType::Data);
}

#[test]
fn exists_watch_classified_as_exist() {
    let req = Request::Exists {
        path: b"/e".to_vec(),
        watch: Watch::Custom(5),
    };
    let (_, reg) = prepare_request(req);
    assert_eq!(reg.unwrap().wtype, WatchType::Exist);
}

#[test]
fn get_children_watch_classified_as_child() {
    let req = Request::GetChildren {
        path: b"/kids".to_vec(),
        watch: Watch::Custom(6),
    };
    let (_, reg) = prepare_request(req);
    assert_eq!(reg.unwrap().wtype, WatchType::Child);
}

#[test]
fn global_and_absent_watches_pass_through() {
    let (wire, reg) = prepare_request(Request::GetData {
        path: b"/g".to_vec(),
        watch: Watch::Global,
    });
    assert!(reg.is_none());
    match wire {
        Request::GetData { watch, .. } => assert_eq!(watch, Watch::Global),
        _ => panic!("variant must be preserved"),
    }

    let (wire, reg) = prepare_request(Request::Exists {
        path: b"/n".to_vec(),
        watch: Watch::NoWatch,
    });
    assert!(reg.is_none());
    match wire {
        Request::Exists { watch, .. } => assert_eq!(watch, Watch::NoWatch),
        _ => panic!("variant must be preserved"),
    }

    let (wire, reg) = prepare_request(Request::Other { opcode: 4 });
    assert!(reg.is_none());
    assert!(matches!(wire, Request::Other { opcode: 4 }));
}

#[test]
fn close_packet_bytes_are_exact() {
    let mut c = Connection::new();
    c.append_close_packet();
    // big-endian length 8, correlation id 0, close-session opcode -11
    assert_eq!(
        c.outbox,
        vec![0, 0, 0, 8, 0, 0, 0, 0, 0xff, 0xff, 0xff, 0xf5]
    );
    // appending again appends another full frame after the first
    c.append_close_packet();
    assert_eq!(c.outbox.len(), 24);
    assert_eq!(&c.outbox[12..16], &[0, 0, 0, 8]);
}
