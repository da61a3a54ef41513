use zbus_names::error::{Error, InvalidNameReason, NameType};
use zbus_names::interface_name::InterfaceName;

#[test]
fn name_type_texts() {
    assert_eq!(NameType::WellKnown.to_string(), "well-known bus name");
    assert_eq!(NameType::Unique.to_string(), "unique bus name");
    assert_eq!(NameType::Interface.to_string(), "interface name");
    assert_eq!(NameType::Member.to_string(), "member name");
    assert_eq!(NameType::Property.to_string(), "property name");
    assert_eq!(NameType::Error.to_string(), "error name");
}

#[test]
fn reason_texts() {
    assert_eq!(InvalidNameReason::Empty.to_string(), "name is empty");
    assert_eq!(
        InvalidNameReason::TooLong { actual: 1000, max: 255 }.to_string(),
        "name is too long (1000 bytes, max 255)"
    );
    assert_eq!(
        InvalidNameReason::TooLong { actual: 0, max: 9 }.to_string(),
        "name is too long (0 bytes, max 9)"
    );
    assert_eq!(
        InvalidNameReason::MissingColonPrefix.to_string(),
        "unique name must start with ':'"
    );
    assert_eq!(
        InvalidNameReason::StartsWithDot.to_string(),
        "name must not start with '.'"
    );
    assert_eq!(
        InvalidNameReason::MissingDotSeparator.to_string(),
        "name must contain at least one '.' separator"
    );
    assert_eq!(
        InvalidNameReason::ElementStartsWithDigit { element_index: 12 }.to_string(),
        "element 12 starts with a digit"
    );
    assert_eq!(
        InvalidNameReason::EmptyElement.to_string(),
        "name contains an empty element"
    );
    assert_eq!(
        InvalidNameReason::InvalidCharacter { character: '-', position: 8 }.to_string(),
        "invalid character '-' at position 8"
    );
    assert_eq!(InvalidNameReason::ParseError.to_string(), "failed to parse name");
}

#[test]
fn error_texts() {
    assert_eq!(
        Error::InvalidBusName("u".to_string(), "w".to_string()).to_string(),
        "Neither a valid unique (u) nor a well-known (w) bus name"
    );
    assert_eq!(
        Error::InvalidWellKnownName("x".to_string()).to_string(),
        "Invalid well-known bus name: x"
    );
    assert_eq!(
        Error::InvalidUniqueName("x".to_string()).to_string(),
        "Invalid unique bus name: x"
    );
    assert_eq!(
        Error::InvalidInterfaceName("x".to_string()).to_string(),
        "Invalid interface or error name: x"
    );
    assert_eq!(
        Error::InvalidErrorName("x".to_string()).to_string(),
        "Invalid interface or error name: x"
    );
    assert_eq!(
        Error::InvalidMemberName("x".to_string()).to_string(),
        "Invalid method or signal name: x"
    );
    assert_eq!(
        Error::InvalidPropertyName("x".to_string()).to_string(),
        "Invalid property name: x"
    );
    assert_eq!(Error::InvalidName("just this").to_string(), "just this");
    assert_eq!(
        Error::InvalidNameConversion { from: "a", to: "b" }.to_string(),
        "Invalid conversion from `a` to `b`"
    );
    let err = InterfaceName::try_from("org.free-desktop").unwrap_err();
    assert_eq!(
        err.to_string(),
        "Invalid interface name: invalid character '-' at position 8"
    );
}

#[test]
fn error_equality() {
    assert_eq!(Error::InvalidName("a"), Error::InvalidName("b"));
    assert_eq!(
        Error::InvalidBusName("a".to_string(), "b".to_string()),
        Error::InvalidBusName("c".to_string(), "d".to_string())
    );
    assert_ne!(
        Error::InvalidWellKnownName("a".to_string()),
        Error::InvalidUniqueName("a".to_string())
    );
    assert_eq!(
        Error::InvalidNameConversion { from: "a", to: "b" },
        Error::InvalidNameConversion { from: "c", to: "d" }
    );
    let detail = |name_type, reason| Error::InvalidNameDetail { name_type, reason };
    assert_eq!(
        detail(NameType::Member, InvalidNameReason::Empty),
        detail(NameType::Member, InvalidNameReason::Empty)
    );
    assert_ne!(
        detail(NameType::Member, InvalidNameReason::Empty),
        detail(NameType::Property, InvalidNameReason::Empty)
    );
    assert_ne!(
        detail(NameType::Member, InvalidNameReason::Empty),
        detail(NameType::Member, InvalidNameReason::EmptyElement)
    );
}
