use pion::broker::{Broker, Opcode, Transaction};
use pion::identity::FileIdentity;
use pion::identity::FileMeta;
use pion::payload::{Descriptor, Segment};
use pion::port::PortRef;
use pion::{EXCHANGE_CODE, REGISTER_CODE};

fn writable(dev: u64, ino: u64) -> Descriptor {
    Descriptor { meta: Some(FileMeta { readonly: false, dev, ino }), cookie: 0 }
}

fn readonly(dev: u64, ino: u64) -> Descriptor {
    Descriptor { meta: Some(FileMeta { readonly: true, dev, ino }), cookie: 0 }
}

fn register(broker: &mut Broker, d: Descriptor, port: PortRef) -> Vec<Segment> {
    let t = Transaction {
        code: REGISTER_CODE,
        payload: vec![Segment::Descriptor(d), Segment::Port(port)],
    };
    broker.handle(&t)
}

fn exchange(broker: &mut Broker, d: Descriptor) -> Vec<Segment> {
    let t = Transaction { code: EXCHANGE_CODE, payload: vec![Segment::Descriptor(d)] };
    broker.handle(&t)
}

#[test]
fn register_fresh_file_returns_empty_reply() {
    let mut broker = Broker::new();
    let port = PortRef::Remote { handle: 41 };
    let reply = register(&mut broker, writable(3, 19), port);
    assert_eq!(reply, Vec::<Segment>::new());
    // The registry now holds the entry: an exchange on the same file gets it.
    let reply = exchange(&mut broker, writable(3, 19));
    assert_eq!(reply, vec![Segment::Port(port)]);
}

#[test]
fn exchange_from_second_opener_returns_port() {
    let mut broker = Broker::new();
    let port = PortRef::Local { token: 7 };
    assert!(register(&mut broker, writable(5, 100), port).is_empty());
    // A different descriptor for the same (device, inode) pair: same identity.
    let other_handle = Descriptor {
        meta: Some(FileMeta { readonly: false, dev: 5, ino: 100 }),
        cookie: 99,
    };
    let reply = exchange(&mut broker, other_handle);
    assert_eq!(reply, vec![Segment::Port(port)]);
}

#[test]
fn second_register_fails_and_keeps_first_port() {
    let mut broker = Broker::new();
    let first = PortRef::Remote { handle: 1 };
    let second = PortRef::Remote { handle: 2 };
    assert!(register(&mut broker, writable(8, 21), first).is_empty());
    let reply = register(&mut broker, writable(8, 21), second);
    assert_eq!(reply, vec![Segment::Bytes(b"couldn't register object".to_vec())]);
    // A subsequent exchange still yields the first port, not the second.
    let reply = exchange(&mut broker, writable(8, 21));
    assert_eq!(reply, vec![Segment::Port(first)]);
}

#[test]
fn unknown_opcode_returns_fixed_text() {
    let mut broker = Broker::new();
    let t = Transaction {
        code: 99,
        payload: vec![Segment::Bytes(vec![1, 2, 3]), Segment::Port(PortRef::LocalWeak { token: 4 })],
    };
    let reply = broker.handle(&t);
    assert_eq!(reply, vec![Segment::Bytes(b"unknown transaction code".to_vec())]);
}

#[test]
fn unknown_opcode_zero_returns_fixed_text() {
    let mut broker = Broker::new();
    let t = Transaction { code: 0, payload: vec![] };
    let reply = broker.handle(&t);
    assert_eq!(reply, vec![Segment::Bytes(b"unknown transaction code".to_vec())]);
}

#[test]
fn exchange_on_unregistered_file_returns_not_found_text() {
    let mut broker = Broker::new();
    let reply = exchange(&mut broker, writable(12, 34));
    assert_eq!(reply, vec![Segment::Bytes(b"couldn't find object".to_vec())]);
}

#[test]
fn readonly_file_never_produces_an_entry() {
    let mut broker = Broker::new();
    let port = PortRef::Remote { handle: 9 };
    // The failure is swallowed: the reply is empty, success-shaped.
    let reply = register(&mut broker, readonly(2, 2), port);
    assert_eq!(reply, Vec::<Segment>::new());
    // No entry was created: a writable handle on the same file finds nothing.
    let reply = exchange(&mut broker, writable(2, 2));
    assert_eq!(reply, vec![Segment::Bytes(b"couldn't find object".to_vec())]);
}

#[test]
fn unreadable_metadata_is_swallowed_silently() {
    let mut broker = Broker::new();
    let broken = Descriptor { meta: None, cookie: 0 };
    let reply = register(&mut broker, broken, PortRef::Remote { handle: 3 });
    assert_eq!(reply, Vec::<Segment>::new());
    let reply = exchange(&mut broker, broken);
    assert_eq!(reply, Vec::<Segment>::new());
}

#[test]
fn register_without_port_segment_does_nothing() {
    let mut broker = Broker::new();
    let t = Transaction {
        code: REGISTER_CODE,
        payload: vec![Segment::Descriptor(writable(6, 6))],
    };
    let reply = broker.handle(&t);
    assert_eq!(reply, Vec::<Segment>::new());
    // Nothing was registered.
    let reply = exchange(&mut broker, writable(6, 6));
    assert_eq!(reply, vec![Segment::Bytes(b"couldn't find object".to_vec())]);
}

#[test]
fn exchange_without_descriptor_does_nothing() {
    let mut broker = Broker::new();
    let t = Transaction {
        code: EXCHANGE_CODE,
        payload: vec![Segment::Bytes(vec![0xff]), Segment::Port(PortRef::Remote { handle: 5 })],
    };
    let reply = broker.handle(&t);
    assert_eq!(reply, Vec::<Segment>::new());
}

#[test]
fn register_tolerates_leading_byte_segments() {
    let mut broker = Broker::new();
    let port = PortRef::RemoteWeak { handle: 77 };
    let t = Transaction {
        code: REGISTER_CODE,
        payload: vec![
            Segment::Bytes(b"ignored".to_vec()),
            Segment::Descriptor(writable(4, 44)),
            Segment::Bytes(b"also ignored".to_vec()),
            Segment::Port(port),
        ],
    };
    let reply = broker.handle(&t);
    assert_eq!(reply, Vec::<Segment>::new());
    let reply = exchange(&mut broker, writable(4, 44));
    assert_eq!(reply, vec![Segment::Port(port)]);
}

#[test]
fn distinct_files_register_independently() {
    let mut broker = Broker::new();
    let port1 = PortRef::Remote { handle: 10 };
    let port2 = PortRef::Remote { handle: 20 };
    assert!(register(&mut broker, writable(1, 1), port1).is_empty());
    assert!(register(&mut broker, writable(1, 2), port2).is_empty());
    assert_eq!(exchange(&mut broker, writable(1, 1)), vec![Segment::Port(port1)]);
    assert_eq!(exchange(&mut broker, writable(1, 2)), vec![Segment::Port(port2)]);
}

#[test]
fn opcode_classification_is_closed() {
    assert_eq!(pion::broker::opcode_of(REGISTER_CODE), Opcode::Register);
    assert_eq!(pion::broker::opcode_of(EXCHANGE_CODE), Opcode::Exchange);
    assert_eq!(pion::broker::opcode_of(0), Opcode::Unknown);
    assert_eq!(pion::broker::opcode_of(3), Opcode::Unknown);
    assert_eq!(pion::broker::opcode_of(u32::MAX), Opcode::Unknown);
}

#[test]
fn same_identity_registered_from_either_of_two_handles() {
    // Whichever handle registers first wins; the cookie plays no part in the
    // identity.
    let mut broker = Broker::new();
    let a = Descriptor { meta: Some(FileMeta { readonly: false, dev: 9, ino: 9 }), cookie: 1 };
    let b = Descriptor { meta: Some(FileMeta { readonly: false, dev: 9, ino: 9 }), cookie: 2 };
    let port = PortRef::Local { token: 5 };
    assert!(register(&mut broker, a, port).is_empty());
    let reply = register(&mut broker, b, PortRef::Local { token: 6 });
    assert_eq!(reply, vec![Segment::Bytes(b"couldn't register object".to_vec())]);
    assert_eq!(exchange(&mut broker, b), vec![Segment::Port(port)]);
}

#[test]
fn identity_carries_device_and_inode() {
    let id = FileIdentity { dev: 17, ino: 4096 };
    assert_eq!(id.dev, 17);
    assert_eq!(id.ino, 4096);
}
