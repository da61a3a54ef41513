use zbus_names::unix::{TransportError, Unix, UnixSocket};

#[test]
fn one_option_gives_a_socket() {
    let u = Unix::from_options(Some("/tmp/dbus-foo"), None, None, None, true).unwrap();
    assert_eq!(u.path(), &UnixSocket::File(b"/tmp/dbus-foo".to_vec()));
    let u = Unix::from_options(None, Some("/tmp/dbus-abs"), None, None, true).unwrap();
    assert_eq!(u.path(), &UnixSocket::Abstract(b"/tmp/dbus-abs".to_vec()));
    let u = Unix::from_options(None, None, Some("/run"), None, true).unwrap();
    assert_eq!(u.take_path(), UnixSocket::Dir(b"/run".to_vec()));
    let u = Unix::from_options(None, None, None, Some("/tmp"), true).unwrap();
    assert_eq!(u.take_path(), UnixSocket::TmpDir(b"/tmp".to_vec()));
}

#[test]
fn other_option_sets_are_invalid() {
    for r in [
        Unix::from_options(None, None, None, None, true),
        Unix::from_options(Some("/a"), Some("b"), None, None, true),
        Unix::from_options(None, None, Some("/a"), Some("/b"), true),
        Unix::from_options(Some("/a"), Some("b"), Some("/c"), Some("/d"), true),
    ] {
        match r {
            Err(TransportError::Address(m)) => assert_eq!(m, "unix: address is invalid"),
            other => panic!("expected an address error, got {:?}", other),
        }
    }
}

#[test]
fn connect_addresses() {
    let u = Unix::new(UnixSocket::File(b"/tmp/s".to_vec()));
    assert_eq!(u.take_addr().unwrap(), b"/tmp/s".to_vec());
    let u = Unix::new(UnixSocket::Abstract(b"name".to_vec()));
    assert_eq!(u.take_addr().unwrap(), b"\0name".to_vec());
    let u = Unix::new(UnixSocket::Dir(b"/run".to_vec()));
    assert!(matches!(u.take_addr(), Err(TransportError::Unsupported)));
    let u = Unix::new(UnixSocket::TmpDir(b"/tmp".to_vec()));
    assert!(matches!(u.take_addr(), Err(TransportError::Unsupported)));
}

#[test]
fn address_texts() {
    let u = Unix::new(UnixSocket::File(b"/tmp/dbus-foo".to_vec()));
    assert_eq!(u.to_string(true).unwrap(), "unix:path=/tmp/dbus-foo");
    let u = Unix::new(UnixSocket::Abstract(b"/tmp/a b".to_vec()));
    assert_eq!(u.to_string(true).unwrap(), "unix:abstract=/tmp/a%20b");
    assert_eq!(
        UnixSocket::Dir(b"/x=y,z".to_vec()).to_string(true).unwrap(),
        "dir=/x%3dy%2cz"
    );
    assert_eq!(
        UnixSocket::TmpDir(vec![b'/', 0xff, 0x00, b'*', b'\\', b'-', b'_', b'.']).to_string(true).unwrap(),
        "tmpdir=/%ff%00*\\-_."
    );
}

#[test]
fn abstract_sockets_need_support() {
    match Unix::from_options(None, Some("name"), None, None, false) {
        Err(TransportError::Address(m)) => assert_eq!(m, "abstract sockets currently Linux-only"),
        other => panic!("expected an address error, got {:?}", other),
    }
    match Unix::from_options(Some("/a"), Some("name"), None, None, false) {
        Err(TransportError::Address(m)) => assert_eq!(m, "unix: address is invalid"),
        other => panic!("expected an address error, got {:?}", other),
    }
    assert!(Unix::from_options(Some("/a"), None, None, None, false).is_ok());
}

#[test]
fn text_paths_are_written_as_they_are() {
    let u = Unix::new(UnixSocket::File(b"C:/a b".to_vec()));
    assert_eq!(u.to_string(false).unwrap(), "unix:path=C:/a b");
    assert_eq!(
        UnixSocket::Dir("d\u{e9}j\u{e0}".as_bytes().to_vec()).to_string(false).unwrap(),
        "dir=d\u{e9}j\u{e0}"
    );
    assert_eq!(UnixSocket::TmpDir(vec![0xff]).to_string(false), None);
    assert_eq!(Unix::new(UnixSocket::Abstract(vec![0xc3])).to_string(false), None);
}

#[test]
fn clones_keep_the_socket() {
    let u = Unix::new(UnixSocket::Abstract(b"n".to_vec()));
    assert_eq!(u.clone().take_path(), *u.path());
}
