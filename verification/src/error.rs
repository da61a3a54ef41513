//! The errors reported when a D-Bus name is refused, and their messages.
use vstd::prelude::*;

use crate::text::{decimal, push_char, push_decimal, push_str};

verus! {

/// The type of D-Bus name being validated.
///
/// This enum identifies which category of D-Bus name failed validation,
/// allowing for more specific error handling and diagnostics.
#[derive(Clone, Copy, Debug, PartialEq, Eq, Structural)]
#[non_exhaustive]
pub enum NameType {
    /// A well-known bus name (e.g., `org.freedesktop.DBus`).
    WellKnown,
    /// A unique bus name (e.g., `:1.42`).
    Unique,
    /// An interface name (e.g., `org.freedesktop.DBus.Peer`).
    Interface,
    /// A member (method or signal) name (e.g., `Ping`).
    Member,
    /// A property name.
    Property,
    /// An error name (follows interface name rules).
    Error,
}

impl NameType {
    /// How the name type reads in messages.
    pub open spec fn spec_text(self) -> Seq<char> {
        match self {
            NameType::WellKnown => "well-known bus name"@,
            NameType::Unique => "unique bus name"@,
            NameType::Interface => "interface name"@,
            NameType::Member => "member name"@,
            NameType::Property => "property name"@,
            NameType::Error => "error name"@,
        }
    }

    /// The name type as text, e.g. `"interface name"`.
    pub fn to_string(&self) -> (s: String)
        ensures
            s@ == self.spec_text(),
    {
        match self {
            NameType::WellKnown => "well-known bus name".to_owned(),
            NameType::Unique => "unique bus name".to_owned(),
            NameType::Interface => "interface name".to_owned(),
            NameType::Member => "member name".to_owned(),
            NameType::Property => "property name".to_owned(),
            NameType::Error => "error name".to_owned(),
        }
    }
}

/// The specific reason why a D-Bus name validation failed.
///
/// This enum provides detailed information about validation failures,
/// enabling precise error messages and programmatic error handling.
#[derive(Debug, PartialEq, Eq, Structural)]
#[non_exhaustive]
pub enum InvalidNameReason {
    /// The name is empty.
    Empty,
    /// The name exceeds the maximum allowed length (255 bytes).
    TooLong {
        /// The actual length of the invalid name.
        actual: usize,
        /// The maximum allowed length (255).
        max: usize,
    },
    /// A unique name must start with a colon (`:`).
    MissingColonPrefix,
    /// The name must not start with a dot (`.`).
    StartsWithDot,
    /// The name must contain at least one dot (`.`) as a separator.
    MissingDotSeparator,
    /// An element in the name starts with a digit.
    ElementStartsWithDigit {
        /// The 0-indexed position of the element that starts with a digit.
        element_index: usize,
    },
    /// An element in the name is empty (e.g., `foo..bar`).
    EmptyElement,
    /// The name contains an invalid character.
    InvalidCharacter {
        /// The invalid character.
        character: char,
        /// The 0-indexed position of the invalid character.
        position: usize,
    },
    /// A generic parsing error (fallback).
    ParseError,
}

impl Clone for InvalidNameReason {
    fn clone(&self) -> (c: Self)
        ensures
            c == *self,
    {
        match self {
            InvalidNameReason::Empty => InvalidNameReason::Empty,
            InvalidNameReason::TooLong { actual, max } => InvalidNameReason::TooLong {
                actual: *actual,
                max: *max,
            },
            InvalidNameReason::MissingColonPrefix => InvalidNameReason::MissingColonPrefix,
            InvalidNameReason::StartsWithDot => InvalidNameReason::StartsWithDot,
            InvalidNameReason::MissingDotSeparator => InvalidNameReason::MissingDotSeparator,
            InvalidNameReason::ElementStartsWithDigit { element_index } =>
                InvalidNameReason::ElementStartsWithDigit { element_index: *element_index },
            InvalidNameReason::EmptyElement => InvalidNameReason::EmptyElement,
            InvalidNameReason::InvalidCharacter { character, position } =>
                InvalidNameReason::InvalidCharacter { character: *character, position: *position },
            InvalidNameReason::ParseError => InvalidNameReason::ParseError,
        }
    }
}

impl InvalidNameReason {
    /// How the reason reads in messages.
    pub open spec fn spec_text(self) -> Seq<char> {
        match self {
            InvalidNameReason::Empty => "name is empty"@,
            InvalidNameReason::TooLong { actual, max } => "name is too long ("@ + decimal(
                actual as nat,
            ) + " bytes, max "@ + decimal(max as nat) + ")"@,
            InvalidNameReason::MissingColonPrefix => "unique name must start with ':'"@,
            InvalidNameReason::StartsWithDot => "name must not start with '.'"@,
            InvalidNameReason::MissingDotSeparator => "name must contain at least one '.' separator"@,
            InvalidNameReason::ElementStartsWithDigit { element_index } => "element "@ + decimal(
                element_index as nat,
            ) + " starts with a digit"@,
            InvalidNameReason::EmptyElement => "name contains an empty element"@,
            InvalidNameReason::InvalidCharacter { character, position } => "invalid character '"@
                + seq![character] + "' at position "@ + decimal(position as nat),
            InvalidNameReason::ParseError => "failed to parse name"@,
        }
    }

    /// Appends the reason's message at the end of `s`.
    pub fn write_to(&self, s: &mut String)
        ensures
            final(s)@ == old(s)@ + self.spec_text(),
    {
        let ghost start = s@;
        match self {
            InvalidNameReason::Empty => push_str(s, "name is empty"),
            InvalidNameReason::TooLong { actual, max } => {
                push_str(s, "name is too long (");
                push_decimal(s, *actual);
                push_str(s, " bytes, max ");
                push_decimal(s, *max);
                push_str(s, ")");
            },
            InvalidNameReason::MissingColonPrefix => push_str(s, "unique name must start with ':'"),
            InvalidNameReason::StartsWithDot => push_str(s, "name must not start with '.'"),
            InvalidNameReason::MissingDotSeparator => push_str(
                s,
                "name must contain at least one '.' separator",
            ),
            InvalidNameReason::ElementStartsWithDigit { element_index } => {
                push_str(s, "element ");
                push_decimal(s, *element_index);
                push_str(s, " starts with a digit");
            },
            InvalidNameReason::EmptyElement => push_str(s, "name contains an empty element"),
            InvalidNameReason::InvalidCharacter { character, position } => {
                push_str(s, "invalid character '");
                push_char(s, *character);
                push_str(s, "' at position ");
                push_decimal(s, *position);
            },
            InvalidNameReason::ParseError => push_str(s, "failed to parse name"),
        }
        assert(s@ =~= start + self.spec_text());
    }

    /// The reason as text, e.g. `"name is empty"`.
    pub fn to_string(&self) -> (s: String)
        ensures
            s@ == self.spec_text(),
    {
        let mut s = String::new();
        self.write_to(&mut s);
        assert(s@ =~= self.spec_text());
        s
    }
}

/// The error type of this crate.
///
/// The various errors that can be reported by this crate.
#[derive(Debug)]
#[non_exhaustive]
pub enum Error {
    /// Invalid bus name. The strings describe why the bus name is neither a valid unique nor
    /// well-known name, respectively. No longer returned by this crate.
    InvalidBusName(String, String),
    /// Invalid well-known bus name. No longer returned by this crate.
    InvalidWellKnownName(String),
    /// Invalid unique bus name. No longer returned by this crate.
    InvalidUniqueName(String),
    /// Invalid interface name. No longer returned by this crate.
    InvalidInterfaceName(String),
    /// Invalid member (method or signal) name. No longer returned by this crate.
    InvalidMemberName(String),
    /// Invalid property name. No longer returned by this crate.
    InvalidPropertyName(String),
    /// Invalid error name. No longer returned by this crate.
    InvalidErrorName(String),
    /// An invalid name (legacy variant with static message).
    InvalidName(&'static str),
    /// An invalid D-Bus name with detailed error information.
    ///
    /// This variant provides specific information about why the name validation failed,
    /// including the type of name and the exact reason for failure.
    InvalidNameDetail {
        /// The type of name that was being validated.
        name_type: NameType,
        /// The specific reason why validation failed.
        reason: InvalidNameReason,
    },
    /// Invalid conversion from name type `from` to name type `to`.
    InvalidNameConversion { from: &'static str, to: &'static str },
}

/// Two errors are equal when they are the same variant; the detailed variant also compares
/// its name type and reason, while the messages carried by the other variants are ignored.
pub open spec fn errors_equal(a: Error, b: Error) -> bool {
    match (a, b) {
        (Error::InvalidBusName(_, _), Error::InvalidBusName(_, _)) => true,
        (Error::InvalidWellKnownName(_), Error::InvalidWellKnownName(_)) => true,
        (Error::InvalidUniqueName(_), Error::InvalidUniqueName(_)) => true,
        (Error::InvalidInterfaceName(_), Error::InvalidInterfaceName(_)) => true,
        (Error::InvalidMemberName(_), Error::InvalidMemberName(_)) => true,
        (Error::InvalidPropertyName(_), Error::InvalidPropertyName(_)) => true,
        (Error::InvalidErrorName(_), Error::InvalidErrorName(_)) => true,
        (Error::InvalidName(_), Error::InvalidName(_)) => true,
        (
            Error::InvalidNameDetail { name_type: t1, reason: r1 },
            Error::InvalidNameDetail { name_type: t2, reason: r2 },
        ) => t1 == t2 && r1 == r2,
        (Error::InvalidNameConversion { .. }, Error::InvalidNameConversion { .. }) => true,
        (_, _) => false,
    }
}

impl Clone for Error {
    fn clone(&self) -> (c: Self)
        ensures
            c == *self,
    {
        match self {
            Error::InvalidBusName(u, w) => Error::InvalidBusName(u.clone(), w.clone()),
            Error::InvalidWellKnownName(m) => Error::InvalidWellKnownName(m.clone()),
            Error::InvalidUniqueName(m) => Error::InvalidUniqueName(m.clone()),
            Error::InvalidInterfaceName(m) => Error::InvalidInterfaceName(m.clone()),
            Error::InvalidMemberName(m) => Error::InvalidMemberName(m.clone()),
            Error::InvalidPropertyName(m) => Error::InvalidPropertyName(m.clone()),
            Error::InvalidErrorName(m) => Error::InvalidErrorName(m.clone()),
            Error::InvalidName(m) => Error::InvalidName(*m),
            Error::InvalidNameDetail { name_type, reason } => Error::InvalidNameDetail {
                name_type: *name_type,
                reason: reason.clone(),
            },
            Error::InvalidNameConversion { from, to } => Error::InvalidNameConversion {
                from: *from,
                to: *to,
            },
        }
    }
}

impl PartialEq for Error {
    fn eq(&self, other: &Self) -> (r: bool) {
        match (self, other) {
            (Error::InvalidBusName(_, _), Error::InvalidBusName(_, _)) => true,
            (Error::InvalidWellKnownName(_), Error::InvalidWellKnownName(_)) => true,
            (Error::InvalidUniqueName(_), Error::InvalidUniqueName(_)) => true,
            (Error::InvalidInterfaceName(_), Error::InvalidInterfaceName(_)) => true,
            (Error::InvalidMemberName(_), Error::InvalidMemberName(_)) => true,
            (Error::InvalidPropertyName(_), Error::InvalidPropertyName(_)) => true,
            (Error::InvalidErrorName(_), Error::InvalidErrorName(_)) => true,
            (Error::InvalidName(_), Error::InvalidName(_)) => true,
            (
                Error::InvalidNameDetail { name_type: t1, reason: r1 },
                Error::InvalidNameDetail { name_type: t2, reason: r2 },
            ) => *t1 == *t2 && *r1 == *r2,
            (Error::InvalidNameConversion { .. }, Error::InvalidNameConversion { .. }) => true,
            (_, _) => false,
        }
    }
}

impl vstd::std_specs::cmp::PartialEqSpecImpl for Error {
    open spec fn obeys_eq_spec() -> bool {
        true
    }

    open spec fn eq_spec(&self, other: &Error) -> bool {
        errors_equal(*self, *other)
    }
}

impl Error {
    /// How the error reads in messages.
    pub open spec fn spec_text(self) -> Seq<char> {
        match self {
            Error::InvalidBusName(unique_err, well_known_err) => "Neither a valid unique ("@
                + unique_err@ + ") nor a well-known ("@ + well_known_err@ + ") bus name"@,
            Error::InvalidWellKnownName(s) => "Invalid well-known bus name: "@ + s@,
            Error::InvalidUniqueName(s) => "Invalid unique bus name: "@ + s@,
            Error::InvalidInterfaceName(s) => "Invalid interface or error name: "@ + s@,
            Error::InvalidErrorName(s) => "Invalid interface or error name: "@ + s@,
            Error::InvalidMemberName(s) => "Invalid method or signal name: "@ + s@,
            Error::InvalidPropertyName(s) => "Invalid property name: "@ + s@,
            Error::InvalidName(s) => s@,
            Error::InvalidNameDetail { name_type, reason } => "Invalid "@ + name_type.spec_text()
                + ": "@ + reason.spec_text(),
            Error::InvalidNameConversion { from, to } => "Invalid conversion from `"@ + from@
                + "` to `"@ + to@ + "`"@,
        }
    }

    /// The error's message, e.g. `"Invalid interface name: name is empty"`.
    pub fn to_string(&self) -> (s: String)
        ensures
            s@ == self.spec_text(),
    {
        let mut s = String::new();
        match self {
            Error::InvalidBusName(unique_err, well_known_err) => {
                push_str(&mut s, "Neither a valid unique (");
                push_str(&mut s, unique_err.as_str());
                push_str(&mut s, ") nor a well-known (");
                push_str(&mut s, well_known_err.as_str());
                push_str(&mut s, ") bus name");
            },
            Error::InvalidWellKnownName(m) => {
                push_str(&mut s, "Invalid well-known bus name: ");
                push_str(&mut s, m.as_str());
            },
            Error::InvalidUniqueName(m) => {
                push_str(&mut s, "Invalid unique bus name: ");
                push_str(&mut s, m.as_str());
            },
            Error::InvalidInterfaceName(m) => {
                push_str(&mut s, "Invalid interface or error name: ");
                push_str(&mut s, m.as_str());
            },
            Error::InvalidErrorName(m) => {
                push_str(&mut s, "Invalid interface or error name: ");
                push_str(&mut s, m.as_str());
            },
            Error::InvalidMemberName(m) => {
                push_str(&mut s, "Invalid method or signal name: ");
                push_str(&mut s, m.as_str());
            },
            Error::InvalidPropertyName(m) => {
                push_str(&mut s, "Invalid property name: ");
                push_str(&mut s, m.as_str());
            },
            Error::InvalidName(m) => {
                push_str(&mut s, m);
            },
            Error::InvalidNameDetail { name_type, reason } => {
                push_str(&mut s, "Invalid ");
                let t = name_type.to_string();
                push_str(&mut s, t.as_str());
                push_str(&mut s, ": ");
                reason.write_to(&mut s);
            },
            Error::InvalidNameConversion { from, to } => {
                push_str(&mut s, "Invalid conversion from `");
                push_str(&mut s, from);
                push_str(&mut s, "` to `");
                push_str(&mut s, to);
                push_str(&mut s, "`");
            },
        }
        assert(s@ =~= self.spec_text());
        s
    }
}

/// Alias for a `Result` with the error type of this crate.
pub type Result<T> = core::result::Result<T, Error>;

/// What a validation reports: success when nothing is wrong, else the detailed error for
/// the given name type.
pub open spec fn detail_result(
    name_type: NameType,
    problem: Option<InvalidNameReason>,
) -> Result<()> {
    match problem {
        None => Ok(()),
        Some(reason) => Err(Error::InvalidNameDetail { name_type, reason }),
    }
}

} // verus!
