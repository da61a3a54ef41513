//! Member (method or signal) names, such as `Member_for_you` or `CamelCase101`.
use vstd::prelude::*;

use crate::chars::{char_at, char_at_byte};
use crate::laws::{law_invalid_character_is_a_character_of_the_text, reports_char_of_text};
use crate::error::{detail_result, Error, InvalidNameReason, NameType};
use crate::rules::{
    element_byte,
    exec_element_byte,
    exec_is_ascii_alpha,
    exec_is_ascii_digit,
    first_index,
    is_ascii_alpha,
    is_ascii_digit,
    lemma_first_index,
    lemma_first_index_exists,
    utf8_bytes,
    MAX_NAME_LENGTH,
    UNDERSCORE,
};

verus! {

/// A byte allowed in a member name: an ASCII letter, digit or `_`.
pub open spec fn member_byte(b: u8) -> bool {
    element_byte(b, false)
}

/// The D-Bus rules for a member name:
/// * only ASCII alphanumeric or `_`;
/// * must not begin with a digit;
/// * must contain at least 1 character;
/// * at most 255 bytes.
pub open spec fn is_valid_member_name(s: Seq<u8>) -> bool {
    &&& 0 < s.len() <= MAX_NAME_LENGTH
    &&& !is_ascii_digit(s[0])
    &&& forall|i: int| 0 <= i < s.len() ==> member_byte(#[trigger] s[i])
}

/// The positions after the first one that hold a byte not allowed in a member name.
pub open spec fn is_bad_member_byte(s: Seq<u8>) -> spec_fn(int) -> bool {
    |i: int| !member_byte(s[i])
}

/// What validation reports of `s`: the first rule it breaks, checked in this order: empty,
/// too long, the first byte, then the first byte after it that is not allowed.
pub open spec fn member_name_error(s: Seq<u8>) -> Option<InvalidNameReason> {
    if s.len() == 0 {
        Some(InvalidNameReason::Empty)
    } else if s.len() > MAX_NAME_LENGTH {
        Some(InvalidNameReason::TooLong { actual: s.len() as usize, max: MAX_NAME_LENGTH })
    } else if !is_ascii_alpha(s[0]) && s[0] != UNDERSCORE {
        if is_ascii_digit(s[0]) {
            Some(InvalidNameReason::ElementStartsWithDigit { element_index: 0 })
        } else {
            Some(InvalidNameReason::InvalidCharacter { character: char_at_byte(s, 0), position: 0 })
        }
    } else if exists|i: int| 1 <= i < s.len() && !member_byte(#[trigger] s[i]) {
        let i = first_index(1, s.len() as int, is_bad_member_byte(s));
        Some(
            InvalidNameReason::InvalidCharacter {
                character: char_at_byte(s, i),
                position: i as usize,
            },
        )
    } else {
        None
    }
}

/// Nothing is reported of exactly the names that follow the rules.
pub proof fn lemma_member_name_error(s: Seq<u8>)
    ensures
        member_name_error(s) is None <==> is_valid_member_name(s),
{
    if exists|i: int| 1 <= i < s.len() && !member_byte(#[trigger] s[i]) {
        let k = choose|i: int| 1 <= i < s.len() && !member_byte(#[trigger] s[i]);
        lemma_first_index_exists(1, s.len() as int, is_bad_member_byte(s), k);
    }
}

/// Validate a member name with detailed error reporting.
pub fn validate_detailed(bytes: &[u8], name_type: NameType) -> (r: Result<(), Error>)
    ensures
        r == detail_result(name_type, member_name_error(bytes@)),
        r is Ok <==> is_valid_member_name(bytes@),
{
    let ghost s = bytes@;
    proof {
        lemma_member_name_error(s);
    }
    if bytes.len() == 0 {
        return Err(Error::InvalidNameDetail { name_type, reason: InvalidNameReason::Empty });
    }
    if bytes.len() > MAX_NAME_LENGTH {
        return Err(
            Error::InvalidNameDetail {
                name_type,
                reason: InvalidNameReason::TooLong { actual: bytes.len(), max: MAX_NAME_LENGTH },
            },
        );
    }
    let first = bytes[0];
    if !exec_is_ascii_alpha(first) && first != UNDERSCORE {
        let reason = if exec_is_ascii_digit(first) {
            InvalidNameReason::ElementStartsWithDigit { element_index: 0 }
        } else {
            InvalidNameReason::InvalidCharacter { character: char_at(bytes, 0), position: 0 }
        };
        return Err(Error::InvalidNameDetail { name_type, reason });
    }
    let mut pos: usize = 1;
    while pos < bytes.len()
        invariant
            s == bytes@,
            1 <= pos <= s.len() <= MAX_NAME_LENGTH,
            is_ascii_alpha(s[0]) || s[0] == UNDERSCORE,
            forall|j: int| 1 <= j < pos ==> member_byte(#[trigger] s[j]),
            forall|j: int| 0 <= j < pos ==> #[trigger] s[j] < 128,
        decreases s.len() - pos,
    {
        let b = bytes[pos];
        if !exec_element_byte(b, false) {
            proof {
                lemma_first_index(1, s.len() as int, is_bad_member_byte(s), pos as int);
            }
            return Err(
                Error::InvalidNameDetail {
                    name_type,
                    reason: InvalidNameReason::InvalidCharacter {
                        character: char_at(bytes, pos),
                        position: pos,
                    },
                },
            );
        }
        assert(s[pos as int] < 128);
        pos = pos + 1;
    }
    Ok(())
}

/// Validate `name` as a member name.
pub fn validate(name: &str) -> (r: Result<(), Error>)
    ensures
        r == detail_result(NameType::Member, member_name_error(utf8_bytes(name@))),
        r is Ok <==> is_valid_member_name(utf8_bytes(name@)),
        reports_char_of_text(name@, member_name_error(utf8_bytes(name@))),
{
    let bytes = name.as_bytes();
    let len = bytes.len();
    proof {
        assert(utf8_bytes(name@).len() == len);
        law_invalid_character_is_a_character_of_the_text(name@);
    }
    validate_detailed(bytes, NameType::Member)
}

/// String that identifies a member (method or signal) name; it always holds a valid one.
#[derive(Debug, Hash, PartialEq, Eq, PartialOrd, Ord)]
pub struct MemberName {
    name: String,
}

impl View for MemberName {
    type V = Seq<char>;

    closed spec fn view(&self) -> Seq<char> {
        self.name@
    }
}

impl Clone for MemberName {
    fn clone(&self) -> (c: Self)
        ensures
            c@ == self@,
    {
        proof {
            use_type_invariant(self);
        }
        MemberName { name: self.name.clone() }
    }
}

impl MemberName {
    #[verifier::type_invariant]
    closed spec fn holds_valid_name(self) -> bool {
        is_valid_member_name(utf8_bytes(self.name@))
    }

    /// The member name `name`, or the reason why it is not one.
    pub fn try_from(name: &str) -> (r: Result<MemberName, Error>)
        ensures
            r is Ok <==> is_valid_member_name(utf8_bytes(name@)),
            r matches Ok(n) ==> n@ == name@,
            r matches Err(e) ==> Err::<(), Error>(e) == detail_result(
                NameType::Member,
                member_name_error(utf8_bytes(name@)),
            ),
            reports_char_of_text(name@, member_name_error(utf8_bytes(name@))),
    {
        match validate(name) {
            Ok(()) => Ok(MemberName { name: name.to_owned() }),
            Err(e) => Err(e),
        }
    }

    /// The name as a string slice; what it holds is always a valid member name.
    pub fn as_str(&self) -> (s: &str)
        ensures
            s@ == self@,
            is_valid_member_name(utf8_bytes(s@)),
    {
        proof {
            use_type_invariant(self);
        }
        self.name.as_str()
    }

    /// Turns the name into its owned sibling.
    pub fn into_owned(self) -> (o: OwnedMemberName)
        ensures
            o@ == self@,
    {
        OwnedMemberName(self)
    }
}

/// Owned sibling of [`MemberName`].
#[derive(Debug, Hash, PartialEq, Eq, PartialOrd, Ord)]
pub struct OwnedMemberName(MemberName);

impl View for OwnedMemberName {
    type V = Seq<char>;

    closed spec fn view(&self) -> Seq<char> {
        self.0@
    }
}

impl Clone for OwnedMemberName {
    fn clone(&self) -> (c: Self)
        ensures
            c@ == self@,
    {
        OwnedMemberName(self.0.clone())
    }
}

impl OwnedMemberName {
    /// The name held.
    pub fn into_inner(self) -> (n: MemberName)
        ensures
            n@ == self@,
    {
        self.0
    }

    /// The name as a string slice; what it holds is always a valid member name.
    pub fn as_str(&self) -> (s: &str)
        ensures
            s@ == self@,
            is_valid_member_name(utf8_bytes(s@)),
    {
        self.0.as_str()
    }
}

} // verus!
