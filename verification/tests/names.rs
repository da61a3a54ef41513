use zbus_names::error::{Error, InvalidNameReason, NameType};
use zbus_names::interface_name::{self, InterfaceName};
use zbus_names::member_name::{self, MemberName};
use zbus_names::unique_name::{self, UniqueName};
use zbus_names::well_known_name::{self, WellKnownName};

fn reason(r: Result<(), Error>) -> InvalidNameReason {
    match r {
        Err(Error::InvalidNameDetail { reason, .. }) => reason,
        other => panic!("expected a detailed error, got {:?}", other),
    }
}

#[test]
fn unique_names_from_the_docs() {
    let name = UniqueName::try_from(":org.gnome.Service-for_you").unwrap();
    assert_eq!(name.as_str(), ":org.gnome.Service-for_you");
    let name = UniqueName::try_from(":a.very.loooooooooooooooooo-ooooooo_0000o0ng.Name").unwrap();
    assert_eq!(name.as_str(), ":a.very.loooooooooooooooooo-ooooooo_0000o0ng.Name");

    UniqueName::try_from("").unwrap_err();
    UniqueName::try_from("dont.start.with.a.colon").unwrap_err();
    UniqueName::try_from(":double..dots").unwrap_err();
    UniqueName::try_from(".").unwrap_err();
    UniqueName::try_from(".start.with.dot").unwrap_err();
    UniqueName::try_from(":no-dots").unwrap_err();
}

#[test]
fn unique_name_reasons() {
    let v = |s: &str| unique_name::validate(s);
    assert_eq!(v("org.freedesktop.DBus"), Ok(()));
    assert_eq!(v(":1.42"), Ok(()));
    assert_eq!(reason(v("")), InvalidNameReason::Empty);
    assert_eq!(reason(v(":")), InvalidNameReason::Empty);
    assert_eq!(reason(v("x.y")), InvalidNameReason::MissingColonPrefix);
    assert_eq!(reason(v("org.freedesktop.DBuss")), InvalidNameReason::MissingColonPrefix);
    assert_eq!(reason(v(":.a")), InvalidNameReason::StartsWithDot);
    assert_eq!(reason(v(":a..b")), InvalidNameReason::EmptyElement);
    assert_eq!(reason(v(":a.b.")), InvalidNameReason::EmptyElement);
    assert_eq!(reason(v(":ab")), InvalidNameReason::MissingDotSeparator);
    assert_eq!(
        reason(v(":a.b$")),
        InvalidNameReason::InvalidCharacter { character: '$', position: 4 }
    );
    let long = ":a.".to_string() + &"b".repeat(253);
    assert_eq!(
        reason(v(long.as_str())),
        InvalidNameReason::TooLong { actual: 256, max: 255 }
    );
    let longest = ":a.".to_string() + &"b".repeat(252);
    assert_eq!(v(longest.as_str()), Ok(()));
    assert_eq!(
        unique_name::validate_detailed(b":x", NameType::Property),
        Err(Error::InvalidNameDetail {
            name_type: NameType::Property,
            reason: InvalidNameReason::MissingDotSeparator,
        })
    );
}

#[test]
fn well_known_names_from_the_docs() {
    let name = WellKnownName::try_from("org.gnome.Service-for_you").unwrap();
    assert_eq!(name.as_str(), "org.gnome.Service-for_you");
    let name = WellKnownName::try_from("a.very.loooooooooooooooooo-ooooooo_0000o0ng.Name").unwrap();
    assert_eq!(name.as_str(), "a.very.loooooooooooooooooo-ooooooo_0000o0ng.Name");

    WellKnownName::try_from("").unwrap_err();
    WellKnownName::try_from("double..dots").unwrap_err();
    WellKnownName::try_from(".").unwrap_err();
    WellKnownName::try_from(".start.with.dot").unwrap_err();
    WellKnownName::try_from("1st.element.starts.with.digit").unwrap_err();
    WellKnownName::try_from("the.2nd.element.starts.with.digit").unwrap_err();
    WellKnownName::try_from("no-dots").unwrap_err();
}

#[test]
fn well_known_name_reasons() {
    let v = |s: &str| well_known_name::validate(s);
    assert_eq!(v("a.-b"), Ok(()));
    assert_eq!(reason(v(".")), InvalidNameReason::StartsWithDot);
    assert_eq!(reason(v("no-dots")), InvalidNameReason::MissingDotSeparator);
    assert_eq!(
        reason(v("the.2nd.element")),
        InvalidNameReason::ElementStartsWithDigit { element_index: 1 }
    );
    assert_eq!(
        reason(v("a.b.c.4d")),
        InvalidNameReason::ElementStartsWithDigit { element_index: 3 }
    );
    assert_eq!(
        reason(v("a.b$c")),
        InvalidNameReason::InvalidCharacter { character: '$', position: 3 }
    );
    // A character outside ASCII is reported as itself, at the byte where it begins.
    assert_eq!(
        reason(v("a.\u{e9}")),
        InvalidNameReason::InvalidCharacter { character: '\u{e9}', position: 2 }
    );
    assert_eq!(
        reason(v("a.b\u{1f600}")),
        InvalidNameReason::InvalidCharacter { character: '\u{1f600}', position: 3 }
    );
    // Bytes that are no UTF-8 are reported byte by byte.
    assert_eq!(
        well_known_name::validate_detailed(b"a.\xffb", NameType::WellKnown),
        Err(Error::InvalidNameDetail {
            name_type: NameType::WellKnown,
            reason: InvalidNameReason::InvalidCharacter { character: '\u{ff}', position: 2 },
        })
    );
    // Valid UTF-8 given as bytes is read as text too.
    assert_eq!(
        well_known_name::validate_detailed("a.\u{e9}".as_bytes(), NameType::WellKnown),
        Err(Error::InvalidNameDetail {
            name_type: NameType::WellKnown,
            reason: InvalidNameReason::InvalidCharacter { character: '\u{e9}', position: 2 },
        })
    );
    // The first problem met from the left is the one reported.
    assert_eq!(
        reason(v("a..b$")),
        InvalidNameReason::EmptyElement
    );
    assert_eq!(
        reason(v("a$.b..")),
        InvalidNameReason::InvalidCharacter { character: '$', position: 1 }
    );
}

#[test]
fn interface_names_from_the_docs() {
    let name = InterfaceName::try_from("org.gnome.Interface_for_you").unwrap();
    assert_eq!(name.as_str(), "org.gnome.Interface_for_you");
    let name = InterfaceName::try_from("a.very.loooooooooooooooooo_ooooooo_0000o0ng.Name").unwrap();
    assert_eq!(name.as_str(), "a.very.loooooooooooooooooo_ooooooo_0000o0ng.Name");

    InterfaceName::try_from("").unwrap_err();
    InterfaceName::try_from(":start.with.a.colon").unwrap_err();
    InterfaceName::try_from("double..dots").unwrap_err();
    InterfaceName::try_from(".").unwrap_err();
    InterfaceName::try_from(".start.with.dot").unwrap_err();
    InterfaceName::try_from("no-dots").unwrap_err();
    InterfaceName::try_from("1st.element.starts.with.digit").unwrap_err();
    InterfaceName::try_from("the.2nd.element.starts.with.digit").unwrap_err();
    InterfaceName::try_from("contains.dashes-in.the.name").unwrap_err();
}

#[test]
fn interface_name_reasons() {
    assert_eq!(
        interface_name::validate_detailed(b"a.-b", NameType::Error),
        Err(Error::InvalidNameDetail {
            name_type: NameType::Error,
            reason: InvalidNameReason::InvalidCharacter { character: '-', position: 2 },
        })
    );
    assert_eq!(interface_name::validate("a.b"), Ok(()));
    assert_eq!(
        interface_name::validate("org.\u{e9}"),
        Err(Error::InvalidNameDetail {
            name_type: NameType::Interface,
            reason: InvalidNameReason::InvalidCharacter { character: '\u{e9}', position: 4 },
        })
    );
    // Without `-`, interface and well-known names are judged alike; with one, the interface
    // rules refuse the first `-`.
    for s in ["org.gnome", "1a.b", "a..b", "a.b$", "ab"] {
        assert_eq!(
            interface_name::validate_detailed(s.as_bytes(), NameType::Interface),
            well_known_name::validate_detailed(s.as_bytes(), NameType::Interface)
        );
    }
    assert_eq!(
        interface_name::validate_detailed(b"a.b-c.d-e", NameType::Interface),
        Err(Error::InvalidNameDetail {
            name_type: NameType::Interface,
            reason: InvalidNameReason::InvalidCharacter { character: '-', position: 3 },
        })
    );
}

#[test]
fn member_names_from_the_docs() {
    let name = MemberName::try_from("Member_for_you").unwrap();
    assert_eq!(name.as_str(), "Member_for_you");
    let name = MemberName::try_from("CamelCase101").unwrap();
    assert_eq!(name.as_str(), "CamelCase101");
    let name = MemberName::try_from("a_very_loooooooooooooooooo_ooooooo_0000o0ngName").unwrap();
    assert_eq!(name.as_str(), "a_very_loooooooooooooooooo_ooooooo_0000o0ngName");

    MemberName::try_from("").unwrap_err();
    MemberName::try_from(".").unwrap_err();
    MemberName::try_from("1startWith_a_Digit").unwrap_err();
    MemberName::try_from("contains.dots_in_the_name").unwrap_err();
    MemberName::try_from("contains-dashes-in_the_name").unwrap_err();
}

#[test]
fn member_name_reasons() {
    let v = |s: &str| member_name::validate(s);
    assert_eq!(v("_"), Ok(()));
    assert_eq!(reason(v("")), InvalidNameReason::Empty);
    assert_eq!(
        reason(v("1abc")),
        InvalidNameReason::ElementStartsWithDigit { element_index: 0 }
    );
    assert_eq!(
        reason(v("-x")),
        InvalidNameReason::InvalidCharacter { character: '-', position: 0 }
    );
    assert_eq!(
        reason(v("\u{e9}t\u{e9}")),
        InvalidNameReason::InvalidCharacter { character: '\u{e9}', position: 0 }
    );
    assert_eq!(
        reason(v("ab.c-d")),
        InvalidNameReason::InvalidCharacter { character: '.', position: 2 }
    );
    let long = "a".repeat(256);
    assert_eq!(
        reason(v(long.as_str())),
        InvalidNameReason::TooLong { actual: 256, max: 255 }
    );
    assert_eq!(v("a".repeat(255).as_str()), Ok(()));
}

#[test]
fn names_keep_their_text() {
    let name = WellKnownName::try_from("org.zbus.Service").unwrap();
    let owned = name.clone().into_owned();
    assert_eq!(owned.as_str(), "org.zbus.Service");
    assert_eq!(owned.into_inner().as_str(), name.as_str());
    let name = UniqueName::try_from(":1.7").unwrap();
    assert_eq!(name.clone().into_owned().as_str(), ":1.7");
    let name = InterfaceName::try_from("org.zbus.Iface").unwrap();
    assert_eq!(name.into_owned().into_inner().as_str(), "org.zbus.Iface");
    let name = MemberName::try_from("Ping").unwrap();
    assert_eq!(name.clone().into_owned().as_str(), "Ping");
}

#[test]
fn kinds_relate_as_the_laws_say() {
    // Interface names are well-known names.
    for s in ["org.freedesktop.DBus", "a.b", "_private.Interface"] {
        assert!(interface_name::validate(s).is_ok());
        assert!(well_known_name::validate(s).is_ok());
    }
    // The bus's own name is both a unique and a well-known name; no other name is.
    assert!(unique_name::validate("org.freedesktop.DBus").is_ok());
    assert!(well_known_name::validate("org.freedesktop.DBus").is_ok());
    assert!(unique_name::validate("org.freedesktop.Notifications").is_err());
    assert!(well_known_name::validate(":1.42").is_err());
    // Member names are none of the dotted kinds.
    assert!(member_name::validate("Ping").is_ok());
    assert!(interface_name::validate("Ping").is_err());
    assert!(well_known_name::validate("Ping").is_err());
    assert!(unique_name::validate("Ping").is_err());
    // Minimum lengths.
    assert!(well_known_name::validate("a.b").is_ok());
    assert!(well_known_name::validate("a.").is_err());
    assert!(unique_name::validate(":a.b").is_ok());
    assert!(unique_name::validate(":a.").is_err());
}
