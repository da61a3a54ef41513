//! Interface names, such as `org.gnome.Interface_for_you`; error names follow the same rules.
use vstd::prelude::*;

use crate::laws::{law_invalid_character_is_a_character_of_the_text, reports_char_of_text};
use crate::error::{detail_result, Error, InvalidNameReason, NameType};
use crate::rules::{check_elements, elements_error, elements_valid, lemma_elements_error_none, utf8_bytes,
    MAX_NAME_LENGTH};

verus! {

/// The D-Bus rules for an interface name:
/// * only ASCII alphanumeric and `_`, besides the `.` separators (no `-`, unlike a
///   well-known name);
/// * must not begin with a `.`;
/// * must contain at least one `.`;
/// * each element must not begin with a digit, and must be at least 1 character (so the
///   name is at least 3 characters long);
/// * at most 255 bytes.
pub open spec fn is_valid_interface_name(s: Seq<u8>) -> bool {
    &&& 0 < s.len() <= MAX_NAME_LENGTH
    &&& elements_valid(s, 0, false, false)
}

/// What validation reports of `s`: the first rule it breaks, checked in this order: empty,
/// too long, then the elements scanned from left to right.
pub open spec fn interface_name_error(s: Seq<u8>) -> Option<InvalidNameReason> {
    if s.len() == 0 {
        Some(InvalidNameReason::Empty)
    } else if s.len() > MAX_NAME_LENGTH {
        Some(InvalidNameReason::TooLong { actual: s.len() as usize, max: MAX_NAME_LENGTH })
    } else {
        elements_error(s, 0, false, false)
    }
}

/// Nothing is reported of exactly the names that follow the rules.
pub proof fn lemma_interface_name_error(s: Seq<u8>)
    ensures
        interface_name_error(s) is None <==> is_valid_interface_name(s),
{
    if 0 < s.len() <= MAX_NAME_LENGTH {
        lemma_elements_error_none(s, 0, false, false);
    }
}

/// Validate an interface name with detailed error reporting.
pub fn validate_detailed(bytes: &[u8], name_type: NameType) -> (r: Result<(), Error>)
    ensures
        r == detail_result(name_type, interface_name_error(bytes@)),
        r is Ok <==> is_valid_interface_name(bytes@),
{
    proof {
        lemma_interface_name_error(bytes@);
    }
    if bytes.len() == 0 {
        return Err(Error::InvalidNameDetail { name_type, reason: InvalidNameReason::Empty });
    }
    if bytes.len() > MAX_NAME_LENGTH {
        return Err(
            Error::InvalidNameDetail {
                name_type,
                reason: InvalidNameReason::TooLong { actual: bytes.len(), max: MAX_NAME_LENGTH },
            },
        );
    }
    match check_elements(bytes, 0, false, false) {
        Some(reason) => Err(Error::InvalidNameDetail { name_type, reason }),
        None => Ok(()),
    }
}

/// Validate `name` as an interface name.
pub fn validate(name: &str) -> (r: Result<(), Error>)
    ensures
        r == detail_result(NameType::Interface, interface_name_error(utf8_bytes(name@))),
        r is Ok <==> is_valid_interface_name(utf8_bytes(name@)),
        reports_char_of_text(name@, interface_name_error(utf8_bytes(name@))),
{
    let bytes = name.as_bytes();
    let len = bytes.len();
    proof {
        assert(utf8_bytes(name@).len() == len);
        law_invalid_character_is_a_character_of_the_text(name@);
    }
    validate_detailed(bytes, NameType::Interface)
}

/// String that identifies an interface name; it always holds a valid one.
#[derive(Debug, Hash, PartialEq, Eq, PartialOrd, Ord)]
pub struct InterfaceName {
    name: String,
}

impl View for InterfaceName {
    type V = Seq<char>;

    closed spec fn view(&self) -> Seq<char> {
        self.name@
    }
}

impl Clone for InterfaceName {
    fn clone(&self) -> (c: Self)
        ensures
            c@ == self@,
    {
        proof {
            use_type_invariant(self);
        }
        InterfaceName { name: self.name.clone() }
    }
}

impl InterfaceName {
    #[verifier::type_invariant]
    closed spec fn holds_valid_name(self) -> bool {
        is_valid_interface_name(utf8_bytes(self.name@))
    }

    /// The interface name `name`, or the reason why it is not one.
    pub fn try_from(name: &str) -> (r: Result<InterfaceName, Error>)
        ensures
            r is Ok <==> is_valid_interface_name(utf8_bytes(name@)),
            r matches Ok(n) ==> n@ == name@,
            r matches Err(e) ==> Err::<(), Error>(e) == detail_result(
                NameType::Interface,
                interface_name_error(utf8_bytes(name@)),
            ),
            reports_char_of_text(name@, interface_name_error(utf8_bytes(name@))),
    {
        match validate(name) {
            Ok(()) => Ok(InterfaceName { name: name.to_owned() }),
            Err(e) => Err(e),
        }
    }

    /// The name as a string slice; what it holds is always a valid interface name.
    pub fn as_str(&self) -> (s: &str)
        ensures
            s@ == self@,
            is_valid_interface_name(utf8_bytes(s@)),
    {
        proof {
            use_type_invariant(self);
        }
        self.name.as_str()
    }

    /// Turns the name into its owned sibling.
    pub fn into_owned(self) -> (o: OwnedInterfaceName)
        ensures
            o@ == self@,
    {
        OwnedInterfaceName(self)
    }
}

/// Owned sibling of [`InterfaceName`].
#[derive(Debug, Hash, PartialEq, Eq, PartialOrd, Ord)]
pub struct OwnedInterfaceName(InterfaceName);

impl View for OwnedInterfaceName {
    type V = Seq<char>;

    closed spec fn view(&self) -> Seq<char> {
        self.0@
    }
}

impl Clone for OwnedInterfaceName {
    fn clone(&self) -> (c: Self)
        ensures
            c@ == self@,
    {
        OwnedInterfaceName(self.0.clone())
    }
}

impl OwnedInterfaceName {
    /// The name held.
    pub fn into_inner(self) -> (n: InterfaceName)
        ensures
            n@ == self@,
    {
        self.0
    }

    /// The name as a string slice; what it holds is always a valid interface name.
    pub fn as_str(&self) -> (s: &str)
        ensures
            s@ == self@,
            is_valid_interface_name(utf8_bytes(s@)),
    {
        self.0.as_str()
    }
}

} // verus!
