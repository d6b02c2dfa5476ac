use pion::identity::{resolve, FileIdentity, FileMeta, ResolveError};
use pion::payload::{
    echo, not_found_bytes, register_failed_bytes, unknown_code_bytes, Descriptor, Segment,
};
use pion::port::PortRef;

#[test]
fn echo_round_trips_bytes_and_descriptor() {
    let d = Descriptor { meta: Some(FileMeta { readonly: false, dev: 2, ino: 3 }), cookie: 7 };
    let payload = vec![Segment::Bytes(b"hi".to_vec()), Segment::Descriptor(d)];
    assert_eq!(echo(payload.clone()), payload);
}

#[test]
fn echo_round_trips_every_segment_kind() {
    let d = Descriptor { meta: None, cookie: 1 };
    let payload = vec![
        Segment::Port(PortRef::LocalWeak { token: 9 }),
        Segment::Bytes(Vec::new()),
        Segment::Descriptor(d),
    ];
    assert_eq!(echo(payload.clone()), payload);
    assert_eq!(echo(Vec::new()), Vec::new());
}

#[test]
fn fixed_texts_are_the_exact_bytes() {
    assert_eq!(register_failed_bytes(), b"couldn't register object".to_vec());
    assert_eq!(not_found_bytes(), b"couldn't find object".to_vec());
    assert_eq!(unknown_code_bytes(), b"unknown transaction code".to_vec());
}

#[test]
fn resolve_rejects_missing_metadata() {
    assert_eq!(resolve(None), Err(ResolveError::IoError));
}

#[test]
fn resolve_rejects_readonly_files() {
    let meta = FileMeta { readonly: true, dev: 1, ino: 2 };
    assert_eq!(resolve(Some(meta)), Err(ResolveError::PermissionDenied));
}

#[test]
fn resolve_returns_device_and_inode_pair() {
    let meta = FileMeta { readonly: false, dev: 21, ino: 1023 };
    assert_eq!(resolve(Some(meta)), Ok(FileIdentity { dev: 21, ino: 1023 }));
}

#[test]
fn same_file_two_handles_resolve_to_equal_identities() {
    let first = FileMeta { readonly: false, dev: 4, ino: 77 };
    let second = FileMeta { readonly: false, dev: 4, ino: 77 };
    assert_eq!(resolve(Some(first)), resolve(Some(second)));
}
