//! Well-known bus names, such as `org.gnome.Service-for_you`.
use vstd::prelude::*;

use crate::laws::{law_invalid_character_is_a_character_of_the_text, reports_char_of_text};
use crate::error::{detail_result, Error, InvalidNameReason, NameType};
use crate::rules::{check_elements, elements_error, elements_valid, lemma_elements_error_none, utf8_bytes,
    MAX_NAME_LENGTH};

verus! {

/// The D-Bus rules for a well-known bus name:
/// * only ASCII alphanumeric, `_` or `-`, besides the `.` separators;
/// * must not begin with a `.`;
/// * must contain at least one `.`;
/// * each element must not begin with a digit, and must be at least 1 character (so the
///   name is at least 3 characters long);
/// * at most 255 bytes.
pub open spec fn is_valid_well_known_name(s: Seq<u8>) -> bool {
    &&& 0 < s.len() <= MAX_NAME_LENGTH
    &&& elements_valid(s, 0, true, false)
}

/// What validation reports of `s`: the first rule it breaks, checked in this order: empty,
/// too long, then the elements scanned from left to right.
pub open spec fn well_known_name_error(s: Seq<u8>) -> Option<InvalidNameReason> {
    if s.len() == 0 {
        Some(InvalidNameReason::Empty)
    } else if s.len() > MAX_NAME_LENGTH {
        Some(InvalidNameReason::TooLong { actual: s.len() as usize, max: MAX_NAME_LENGTH })
    } else {
        elements_error(s, 0, true, false)
    }
}

/// Nothing is reported of exactly the names that follow the rules.
pub proof fn lemma_well_known_name_error(s: Seq<u8>)
    ensures
        well_known_name_error(s) is None <==> is_valid_well_known_name(s),
{
    if 0 < s.len() <= MAX_NAME_LENGTH {
        lemma_elements_error_none(s, 0, true, false);
    }
}

/// Validate a well-known bus name with detailed error reporting.
pub fn validate_detailed(bytes: &[u8], name_type: NameType) -> (r: Result<(), Error>)
    ensures
        r == detail_result(name_type, well_known_name_error(bytes@)),
        r is Ok <==> is_valid_well_known_name(bytes@),
{
    proof {
        lemma_well_known_name_error(bytes@);
    }
    if bytes.len() == 0 {
        return Err(Error::InvalidNameDetail { name_type, reason: InvalidNameReason::Empty });
    }
    if bytes.len() > MAX_NAME_LENGTH {
        return Err(
            Error::InvalidNameDetail {
                name_type,
                reason: InvalidNameReason::TooLong { actual: bytes.len(), max: MAX_NAME_LENGTH },
            },
        );
    }
    match check_elements(bytes, 0, true, false) {
        Some(reason) => Err(Error::InvalidNameDetail { name_type, reason }),
        None => Ok(()),
    }
}

/// Validate `name` as a well-known bus name.
pub fn validate(name: &str) -> (r: Result<(), Error>)
    ensures
        r == detail_result(NameType::WellKnown, well_known_name_error(utf8_bytes(name@))),
        r is Ok <==> is_valid_well_known_name(utf8_bytes(name@)),
        reports_char_of_text(name@, well_known_name_error(utf8_bytes(name@))),
{
    let bytes = name.as_bytes();
    let len = bytes.len();
    proof {
        assert(utf8_bytes(name@).len() == len);
        law_invalid_character_is_a_character_of_the_text(name@);
    }
    validate_detailed(bytes, NameType::WellKnown)
}

/// String that identifies a well-known bus name; it always holds a valid one.
#[derive(Debug, Hash, PartialEq, Eq, PartialOrd, Ord)]
pub struct WellKnownName {
    name: String,
}

impl View for WellKnownName {
    type V = Seq<char>;

    closed spec fn view(&self) -> Seq<char> {
        self.name@
    }
}

impl Clone for WellKnownName {
    fn clone(&self) -> (c: Self)
        ensures
            c@ == self@,
    {
        proof {
            use_type_invariant(self);
        }
        WellKnownName { name: self.name.clone() }
    }
}

impl WellKnownName {
    #[verifier::type_invariant]
    closed spec fn holds_valid_name(self) -> bool {
        is_valid_well_known_name(utf8_bytes(self.name@))
    }

    /// The well-known name `name`, or the reason why it is not one.
    pub fn try_from(name: &str) -> (r: Result<WellKnownName, Error>)
        ensures
            r is Ok <==> is_valid_well_known_name(utf8_bytes(name@)),
            r matches Ok(n) ==> n@ == name@,
            r matches Err(e) ==> Err::<(), Error>(e) == detail_result(
                NameType::WellKnown,
                well_known_name_error(utf8_bytes(name@)),
            ),
            reports_char_of_text(name@, well_known_name_error(utf8_bytes(name@))),
    {
        match validate(name) {
            Ok(()) => Ok(WellKnownName { name: name.to_owned() }),
            Err(e) => Err(e),
        }
    }

    /// The name as a string slice; what it holds is always a valid well-known name.
    pub fn as_str(&self) -> (s: &str)
        ensures
            s@ == self@,
            is_valid_well_known_name(utf8_bytes(s@)),
    {
        proof {
            use_type_invariant(self);
        }
        self.name.as_str()
    }

    /// Turns the name into its owned sibling.
    pub fn into_owned(self) -> (o: OwnedWellKnownName)
        ensures
            o@ == self@,
    {
        OwnedWellKnownName(self)
    }
}

/// Owned sibling of [`WellKnownName`].
#[derive(Debug, Hash, PartialEq, Eq, PartialOrd, Ord)]
pub struct OwnedWellKnownName(WellKnownName);

impl View for OwnedWellKnownName {
    type V = Seq<char>;

    closed spec fn view(&self) -> Seq<char> {
        self.0@
    }
}

impl Clone for OwnedWellKnownName {
    fn clone(&self) -> (c: Self)
        ensures
            c@ == self@,
    {
        OwnedWellKnownName(self.0.clone())
    }
}

impl OwnedWellKnownName {
    /// The name held.
    pub fn into_inner(self) -> (n: WellKnownName)
        ensures
            n@ == self@,
    {
        self.0
    }

    /// The name as a string slice; what it holds is always a valid well-known name.
    pub fn as_str(&self) -> (s: &str)
        ensures
            s@ == self@,
            is_valid_well_known_name(utf8_bytes(s@)),
    {
        self.0.as_str()
    }
}

} // verus!
