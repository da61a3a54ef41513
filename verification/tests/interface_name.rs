use zbus_names::error::{Error, InvalidNameReason, NameType};
use zbus_names::interface_name::InterfaceName;

#[test]
fn test_valid_interface_names() {
    // Valid names should pass
    InterfaceName::try_from("org.freedesktop.DBus").unwrap();
    InterfaceName::try_from("a.b").unwrap();
    InterfaceName::try_from("org.gnome.Interface_for_you").unwrap();
    InterfaceName::try_from("_private.Interface").unwrap();
}

#[test]
fn test_empty_name_error() {
    let err = InterfaceName::try_from("").unwrap_err();
    match err {
        Error::InvalidNameDetail {
            name_type: NameType::Interface,
            reason: InvalidNameReason::Empty,
        } => {}
        _ => panic!("Expected Empty error, got: {:?}", err),
    }
}

#[test]
fn test_too_long_name_error() {
    let long_name = "a.".to_string() + &"b".repeat(254);
    let err = InterfaceName::try_from(long_name.as_str()).unwrap_err();
    match err {
        Error::InvalidNameDetail {
            name_type: NameType::Interface,
            reason: InvalidNameReason::TooLong { actual, max: 255 },
        } => {
            assert_eq!(actual, long_name.len());
        }
        _ => panic!("Expected TooLong error, got: {:?}", err),
    }
}

#[test]
fn test_starts_with_dot_error() {
    let err = InterfaceName::try_from(".org.freedesktop").unwrap_err();
    match err {
        Error::InvalidNameDetail {
            name_type: NameType::Interface,
            reason: InvalidNameReason::StartsWithDot,
        } => {}
        _ => panic!("Expected StartsWithDot error, got: {:?}", err),
    }
}

#[test]
fn test_missing_dot_separator_error() {
    let err = InterfaceName::try_from("nodots").unwrap_err();
    match err {
        Error::InvalidNameDetail {
            name_type: NameType::Interface,
            reason: InvalidNameReason::MissingDotSeparator,
        } => {}
        _ => panic!("Expected MissingDotSeparator error, got: {:?}", err),
    }
}

#[test]
fn test_element_starts_with_digit_error() {
    // First element starts with digit
    let err = InterfaceName::try_from("1org.freedesktop").unwrap_err();
    match err {
        Error::InvalidNameDetail {
            name_type: NameType::Interface,
            reason: InvalidNameReason::ElementStartsWithDigit { element_index: 0 },
        } => {}
        _ => panic!("Expected ElementStartsWithDigit(0) error, got: {:?}", err),
    }

    // Second element starts with digit
    let err = InterfaceName::try_from("org.1freedesktop").unwrap_err();
    match err {
        Error::InvalidNameDetail {
            name_type: NameType::Interface,
            reason: InvalidNameReason::ElementStartsWithDigit { element_index: 1 },
        } => {}
        _ => panic!("Expected ElementStartsWithDigit(1) error, got: {:?}", err),
    }
}

#[test]
fn test_empty_element_error() {
    // Consecutive dots
    let err = InterfaceName::try_from("org..freedesktop").unwrap_err();
    match err {
        Error::InvalidNameDetail {
            name_type: NameType::Interface,
            reason: InvalidNameReason::EmptyElement,
        } => {}
        _ => panic!("Expected EmptyElement error, got: {:?}", err),
    }

    // Trailing dot
    let err = InterfaceName::try_from("org.freedesktop.").unwrap_err();
    match err {
        Error::InvalidNameDetail {
            name_type: NameType::Interface,
            reason: InvalidNameReason::EmptyElement,
        } => {}
        _ => panic!(
            "Expected EmptyElement error for trailing dot, got: {:?}",
            err
        ),
    }
}

#[test]
fn test_invalid_character_error() {
    // Dash is not allowed in interface names (unlike well-known names)
    let err = InterfaceName::try_from("org.free-desktop").unwrap_err();
    match err {
        Error::InvalidNameDetail {
            name_type: NameType::Interface,
            reason:
                InvalidNameReason::InvalidCharacter {
                    character: '-',
                    position,
                },
        } => {
            assert_eq!(position, 8); // Position of '-'
        }
        _ => panic!("Expected InvalidCharacter('-') error, got: {:?}", err),
    }

    // Colon not allowed
    let err = InterfaceName::try_from(":org.freedesktop").unwrap_err();
    match err {
        Error::InvalidNameDetail {
            name_type: NameType::Interface,
            reason:
                InvalidNameReason::InvalidCharacter {
                    character: ':',
                    position: 0,
                },
        } => {}
        _ => panic!("Expected InvalidCharacter(':') error, got: {:?}", err),
    }
}

#[test]
fn test_error_display_message() {
    let err = InterfaceName::try_from("").unwrap_err();
    let msg = err.to_string();
    assert!(
        msg.contains("interface name"),
        "Message should mention interface name"
    );
    assert!(msg.contains("empty"), "Message should mention 'empty'");
}
