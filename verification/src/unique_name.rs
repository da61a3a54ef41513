//! Unique bus names, such as `:org.gnome.Service-for_you` or `:1.42`.
use vstd::prelude::*;

use crate::laws::{law_invalid_character_is_a_character_of_the_text, reports_char_of_text};
use crate::error::{detail_result, Error, InvalidNameReason, NameType};
use crate::rules::{
    check_elements,
    elements_error,
    elements_valid,
    lemma_elements_error_none,
    utf8_bytes,
    COLON,
    MAX_NAME_LENGTH,
};

verus! {

/// The bytes of `org.freedesktop.DBus`, the name of the message bus itself, which is
/// accepted as a unique name too.
pub open spec fn bus_daemon_name() -> Seq<u8> {
    seq![
        111u8, 114u8, 103u8, 46u8, 102u8, 114u8, 101u8, 101u8, 100u8, 101u8,
        115u8, 107u8, 116u8, 111u8, 112u8, 46u8, 68u8, 66u8, 117u8, 115u8,
    ]
}

/// The D-Bus rules for a unique bus name:
/// * only ASCII alphanumeric, `_` or `-`, besides the `.` separators;
/// * must begin with a `:`;
/// * must contain at least one `.`;
/// * each element must be at least 1 character (so the name is at least 4 characters
///   long); unlike other names, an element may begin with a digit;
/// * at most 255 bytes;
///
/// and `org.freedesktop.DBus` is accepted as a special case.
pub open spec fn is_valid_unique_name(s: Seq<u8>) -> bool {
    ||| s == bus_daemon_name()
    ||| {
        &&& 1 < s.len() <= MAX_NAME_LENGTH
        &&& s[0] == COLON
        &&& elements_valid(s, 1, true, true)
    }
}

/// What validation reports of `s`: the first rule it breaks, checked in this order: empty,
/// too long, (the bus's own name passes here), missing `:`, nothing after the `:`, then the
/// elements after the `:` scanned from left to right.
pub open spec fn unique_name_error(s: Seq<u8>) -> Option<InvalidNameReason> {
    if s.len() == 0 {
        Some(InvalidNameReason::Empty)
    } else if s.len() > MAX_NAME_LENGTH {
        Some(InvalidNameReason::TooLong { actual: s.len() as usize, max: MAX_NAME_LENGTH })
    } else if s == bus_daemon_name() {
        None
    } else if s[0] != COLON {
        Some(InvalidNameReason::MissingColonPrefix)
    } else if s.len() == 1 {
        Some(InvalidNameReason::Empty)
    } else {
        elements_error(s, 1, true, true)
    }
}

/// Nothing is reported of exactly the names that follow the rules.
pub proof fn lemma_unique_name_error(s: Seq<u8>)
    ensures
        unique_name_error(s) is None <==> is_valid_unique_name(s),
{
    if 1 < s.len() <= MAX_NAME_LENGTH {
        lemma_elements_error_none(s, 1, true, true);
    }
}

/// `bytes` is `org.freedesktop.DBus`.
fn is_bus_daemon_name(bytes: &[u8]) -> (r: bool)
    ensures
        r == (bytes@ == bus_daemon_name()),
{
    if bytes.len() != 20 {
        return false;
    }
    let r = bytes[0] == 111 && bytes[1] == 114 && bytes[2] == 103 && bytes[3] == 46 && bytes[4]
        == 102 && bytes[5] == 114 && bytes[6] == 101 && bytes[7] == 101 && bytes[8] == 100
        && bytes[9] == 101 && bytes[10] == 115 && bytes[11] == 107 && bytes[12] == 116
        && bytes[13] == 111 && bytes[14] == 112 && bytes[15] == 46 && bytes[16] == 68 && bytes[17]
        == 66 && bytes[18] == 117 && bytes[19] == 115;
    proof {
        if r {
            assert(bytes@ =~= bus_daemon_name());
        }
        if bytes@ == bus_daemon_name() {
            assert(bytes@[19] == 115u8);
        }
    }
    r
}

/// Validate a unique bus name with detailed error reporting.
pub fn validate_detailed(bytes: &[u8], name_type: NameType) -> (r: Result<(), Error>)
    ensures
        r == detail_result(name_type, unique_name_error(bytes@)),
        r is Ok <==> is_valid_unique_name(bytes@),
{
    proof {
        lemma_unique_name_error(bytes@);
    }
    if bytes.len() == 0 {
        return Err(Error::InvalidNameDetail { name_type, reason: InvalidNameReason::Empty });
    }
    if bytes.len() > MAX_NAME_LENGTH {
        return Err(
            Error::InvalidNameDetail {
                name_type,
                reason: InvalidNameReason::TooLong { actual: bytes.len(), max: MAX_NAME_LENGTH },
            },
        );
    }
    if is_bus_daemon_name(bytes) {
        return Ok(());
    }
    if bytes[0] != COLON {
        return Err(
            Error::InvalidNameDetail { name_type, reason: InvalidNameReason::MissingColonPrefix },
        );
    }
    if bytes.len() == 1 {
        return Err(Error::InvalidNameDetail { name_type, reason: InvalidNameReason::Empty });
    }
    match check_elements(bytes, 1, true, true) {
        Some(reason) => Err(Error::InvalidNameDetail { name_type, reason }),
        None => Ok(()),
    }
}

/// Validate `name` as a unique bus name.
pub fn validate(name: &str) -> (r: Result<(), Error>)
    ensures
        r == detail_result(NameType::Unique, unique_name_error(utf8_bytes(name@))),
        r is Ok <==> is_valid_unique_name(utf8_bytes(name@)),
        reports_char_of_text(name@, unique_name_error(utf8_bytes(name@))),
{
    let bytes = name.as_bytes();
    let len = bytes.len();
    proof {
        assert(utf8_bytes(name@).len() == len);
        law_invalid_character_is_a_character_of_the_text(name@);
    }
    validate_detailed(bytes, NameType::Unique)
}

/// String that identifies a unique bus name; it always holds a valid one.
#[derive(Debug, Hash, PartialEq, Eq, PartialOrd, Ord)]
pub struct UniqueName {
    name: String,
}

impl View for UniqueName {
    type V = Seq<char>;

    closed spec fn view(&self) -> Seq<char> {
        self.name@
    }
}

impl Clone for UniqueName {
    fn clone(&self) -> (c: Self)
        ensures
            c@ == self@,
    {
        proof {
            use_type_invariant(self);
        }
        UniqueName { name: self.name.clone() }
    }
}

impl UniqueName {
    #[verifier::type_invariant]
    closed spec fn holds_valid_name(self) -> bool {
        is_valid_unique_name(utf8_bytes(self.name@))
    }

    /// The unique name `name`, or the reason why it is not one.
    pub fn try_from(name: &str) -> (r: Result<UniqueName, Error>)
        ensures
            r is Ok <==> is_valid_unique_name(utf8_bytes(name@)),
            r matches Ok(n) ==> n@ == name@,
            r matches Err(e) ==> Err::<(), Error>(e) == detail_result(
                NameType::Unique,
                unique_name_error(utf8_bytes(name@)),
            ),
            reports_char_of_text(name@, unique_name_error(utf8_bytes(name@))),
    {
        match validate(name) {
            Ok(()) => Ok(UniqueName { name: name.to_owned() }),
            Err(e) => Err(e),
        }
    }

    /// The name as a string slice; what it holds is always a valid unique name.
    pub fn as_str(&self) -> (s: &str)
        ensures
            s@ == self@,
            is_valid_unique_name(utf8_bytes(s@)),
    {
        proof {
            use_type_invariant(self);
        }
        self.name.as_str()
    }

    /// Turns the name into its owned sibling.
    pub fn into_owned(self) -> (o: OwnedUniqueName)
        ensures
            o@ == self@,
    {
        OwnedUniqueName(self)
    }
}

/// Owned sibling of [`UniqueName`].
#[derive(Debug, Hash, PartialEq, Eq, PartialOrd, Ord)]
pub struct OwnedUniqueName(UniqueName);

impl View for OwnedUniqueName {
    type V = Seq<char>;

    closed spec fn view(&self) -> Seq<char> {
        self.0@
    }
}

impl Clone for OwnedUniqueName {
    fn clone(&self) -> (c: Self)
        ensures
            c@ == self@,
    {
        OwnedUniqueName(self.0.clone())
    }
}

impl OwnedUniqueName {
    /// The name held.
    pub fn into_inner(self) -> (n: UniqueName)
        ensures
            n@ == self@,
    {
        self.0
    }

    /// The name as a string slice; what it holds is always a valid unique name.
    pub fn as_str(&self) -> (s: &str)
        ensures
            s@ == self@,
            is_valid_unique_name(utf8_bytes(s@)),
    {
        self.0.as_str()
    }
}

} // verus!
