use mltd::error::{Error, ErrorKind, Repr};

fn assert_send_sync<T>()
where
    T: Send + Sync,
{
}

#[test]
fn test_error() {
    assert_send_sync::<Error>();
}

#[test]
fn error_kinds_follow_the_repr() {
    assert_eq!(Error::new(Repr::io("disk full")).kind(), ErrorKind::Io);
    assert_eq!(Error::new(Repr::bug("unreachable")).kind(), ErrorKind::Bug);
    assert_eq!(Error::new(Repr::OutOfRange(3, 2)).kind(), ErrorKind::OutOfRange);
    assert_eq!(Error::new(Repr::AudioDecode(String::from("bad"))).kind(), ErrorKind::AudioDecode);
    match Error::new(Repr::io("disk full")).repr() {
        Repr::Io { reason } => assert_eq!(reason, "disk full"),
        _ => panic!("expected an I/O error"),
    }
}
