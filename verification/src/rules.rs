//! The byte-level rules shared by the D-Bus name kinds, and the scanner of dot-separated
//! elements that checks them.
//!
//! Positions are absolute indices into the whole name; the elements may begin after a
//! prefix (`start`), as they do in a unique name after its `:`.
use vstd::prelude::*;

use crate::chars::{char_at, char_at_byte};
use crate::error::InvalidNameReason;

verus! {

/// The maximum length of a D-Bus name in bytes.
pub const MAX_NAME_LENGTH: usize = 255;

/// `.`
pub const DOT: u8 = 46;

/// `:`
pub const COLON: u8 = 58;

/// `_`
pub const UNDERSCORE: u8 = 95;

/// `-`
pub const HYPHEN: u8 = 45;

/// The UTF-8 encoding of a text: the bytes that a `str` holding it consists of.
pub open spec fn utf8_bytes(text: Seq<char>) -> Seq<u8> {
    vstd::utf8::encode_utf8(text)
}

/// An ASCII digit `0`–`9`.
pub open spec fn is_ascii_digit(b: u8) -> bool {
    48 <= b <= 57
}

/// An ASCII letter `A`–`Z` or `a`–`z`.
pub open spec fn is_ascii_alpha(b: u8) -> bool {
    (65 <= b <= 90) || (97 <= b <= 122)
}

/// An ASCII letter or digit.
pub open spec fn is_ascii_alnum(b: u8) -> bool {
    is_ascii_digit(b) || is_ascii_alpha(b)
}

/// A byte allowed inside an element: a letter, a digit, `_`, and `-` where `hyphen` allows it.
pub open spec fn element_byte(b: u8, hyphen: bool) -> bool {
    is_ascii_alnum(b) || b == UNDERSCORE || (hyphen && b == HYPHEN)
}

pub fn exec_is_ascii_digit(b: u8) -> (r: bool)
    ensures
        r == is_ascii_digit(b),
{
    48 <= b && b <= 57
}

pub fn exec_is_ascii_alpha(b: u8) -> (r: bool)
    ensures
        r == is_ascii_alpha(b),
{
    (65 <= b && b <= 90) || (97 <= b && b <= 122)
}

pub fn exec_element_byte(b: u8, hyphen: bool) -> (r: bool)
    ensures
        r == element_byte(b, hyphen),
{
    exec_is_ascii_digit(b) || exec_is_ascii_alpha(b) || b == UNDERSCORE || (hyphen && b == HYPHEN)
}

/// The number of `.` bytes in `s`.
pub open spec fn count_dots(s: Seq<u8>) -> nat
    decreases s.len(),
{
    if s.len() == 0 {
        0
    } else {
        count_dots(s.drop_last()) + if s.last() == DOT {
            1nat
        } else {
            0nat
        }
    }
}

/// Position `i` is the first byte of an element: the first byte after the prefix, or a
/// byte right after a `.`.
pub open spec fn starts_element(s: Seq<u8>, start: int, i: int) -> bool {
    i == start || s[i - 1] == DOT
}

/// The smallest index in `lo..hi` at which `p` holds (meaningful when there is one).
pub open spec fn first_index(lo: int, hi: int, p: spec_fn(int) -> bool) -> int {
    choose|i: int| lo <= i < hi && #[trigger] p(i) && forall|j: int| lo <= j < i ==> !#[trigger] p(j)
}

/// An index at which `p` holds, with none before it in `lo..`, is the first one.
pub proof fn lemma_first_index(lo: int, hi: int, p: spec_fn(int) -> bool, k: int)
    requires
        lo <= k < hi,
        p(k),
        forall|j: int| lo <= j < k ==> !#[trigger] p(j),
    ensures
        first_index(lo, hi, p) == k,
{
    let i = first_index(lo, hi, p);
    assert(lo <= k < hi && p(k) && forall|j: int| lo <= j < k ==> !#[trigger] p(j));
    if i < k {
        assert(!p(i));
    }
    if i > k {
        assert(!p(k));
    }
}

/// Where `p` holds somewhere in `lo..hi`, there is a first such index, and `p` holds there.
pub proof fn lemma_first_index_exists(lo: int, hi: int, p: spec_fn(int) -> bool, k: int)
    requires
        lo <= k < hi,
        p(k),
    ensures
        lo <= first_index(lo, hi, p) <= k,
        p(first_index(lo, hi, p)),
        forall|j: int| lo <= j < first_index(lo, hi, p) ==> !#[trigger] p(j),
    decreases k - lo,
{
    if exists|j: int| lo <= j < k && #[trigger] p(j) {
        let j = choose|j: int| lo <= j < k && #[trigger] p(j);
        lemma_first_index_exists(lo, hi, p, j);
    } else {
        lemma_first_index(lo, hi, p, k);
    }
}

/// What is wrong with the byte at position `i`, if anything: a `.` that begins an element
/// leaves that element empty; a digit may not begin an element unless `digit_start`; any
/// other byte must be an element byte.
pub open spec fn fault_at(
    s: Seq<u8>,
    start: int,
    i: int,
    hyphen: bool,
    digit_start: bool,
) -> Option<InvalidNameReason> {
    let b = s[i];
    if b == DOT {
        if starts_element(s, start, i) {
            Some(InvalidNameReason::EmptyElement)
        } else {
            None
        }
    } else if starts_element(s, start, i) && !digit_start && is_ascii_digit(b) {
        Some(
            InvalidNameReason::ElementStartsWithDigit {
                element_index: count_dots(s.subrange(start, i)) as usize,
            },
        )
    } else if !element_byte(b, hyphen) {
        Some(
            InvalidNameReason::InvalidCharacter {
                character: char_at_byte(s, i),
                position: i as usize,
            },
        )
    } else {
        None
    }
}

/// The positions of `start..` at which something is wrong.
pub open spec fn is_fault(s: Seq<u8>, start: int, hyphen: bool, digit_start: bool) -> spec_fn(
    int,
) -> bool {
    |i: int| fault_at(s, start, i, hyphen, digit_start) is Some
}

/// Some position of `start..` is wrong.
pub open spec fn has_fault(s: Seq<u8>, start: int, hyphen: bool, digit_start: bool) -> bool {
    exists|i: int| start <= i < s.len() && #[trigger] fault_at(s, start, i, hyphen, digit_start) is Some
}

/// There is a `.` in `start..`.
pub open spec fn has_dot_from(s: Seq<u8>, start: int) -> bool {
    exists|i: int| start <= i < s.len() && s[i] == DOT
}

/// Why the dot-separated elements of `s` from `start` on are not well formed, reported as
/// a scan from left to right reports it: a leading `.`, then the first wrong byte, then an
/// empty last element, then the lack of any `.`.
pub open spec fn elements_error(
    s: Seq<u8>,
    start: int,
    hyphen: bool,
    digit_start: bool,
) -> Option<InvalidNameReason> {
    if s[start] == DOT {
        Some(InvalidNameReason::StartsWithDot)
    } else if has_fault(s, start, hyphen, digit_start) {
        fault_at(
            s,
            start,
            first_index(start, s.len() as int, is_fault(s, start, hyphen, digit_start)),
            hyphen,
            digit_start,
        )
    } else if s.last() == DOT {
        Some(InvalidNameReason::EmptyElement)
    } else if !has_dot_from(s, start) {
        Some(InvalidNameReason::MissingDotSeparator)
    } else {
        None
    }
}

/// The elements of `s` from `start` on are well formed: only element bytes and `.`; no
/// element is empty; no element begins with a digit unless `digit_start`; and there are at
/// least two elements.
pub open spec fn elements_valid(s: Seq<u8>, start: int, hyphen: bool, digit_start: bool) -> bool {
    &&& forall|i: int| start <= i < s.len() ==> s[i] == DOT || element_byte(#[trigger] s[i], hyphen)
    &&& forall|i: int|
        start <= i < s.len() && #[trigger] starts_element(s, start, i) ==> s[i] != DOT && (
        digit_start || !is_ascii_digit(s[i]))
    &&& s.last() != DOT
    &&& has_dot_from(s, start)
}

/// The scan finds nothing wrong exactly when the elements are well formed.
pub proof fn lemma_elements_error_none(s: Seq<u8>, start: int, hyphen: bool, digit_start: bool)
    requires
        0 <= start < s.len(),
    ensures
        elements_error(s, start, hyphen, digit_start) is None <==> elements_valid(
            s,
            start,
            hyphen,
            digit_start,
        ),
{
    if elements_valid(s, start, hyphen, digit_start) {
        assert(s[start] != DOT) by {
            assert(starts_element(s, start, start));
        }
        assert forall|i: int| start <= i < s.len() implies #[trigger] fault_at(
            s,
            start,
            i,
            hyphen,
            digit_start,
        ) is None by {
            assert(s[i] == DOT || element_byte(s[i], hyphen));
            if starts_element(s, start, i) {
                assert(s[i] != DOT);
            }
        }
    }
    if elements_error(s, start, hyphen, digit_start) is None {
        assert(s[start] != DOT);
        if has_fault(s, start, hyphen, digit_start) {
            let k = choose|k: int|
                start <= k < s.len() && #[trigger] fault_at(s, start, k, hyphen, digit_start) is Some;
            lemma_first_index_exists(start, s.len() as int, is_fault(s, start, hyphen, digit_start), k);
        }
        assert(!has_fault(s, start, hyphen, digit_start));
        assert forall|i: int| start <= i < s.len() implies s[i] == DOT || element_byte(
            #[trigger] s[i],
            hyphen,
        ) by {
            assert(fault_at(s, start, i, hyphen, digit_start) is None);
        }
        assert forall|i: int|
            start <= i < s.len() && #[trigger] starts_element(s, start, i) implies s[i] != DOT && (
            digit_start || !is_ascii_digit(s[i])) by {
            assert(fault_at(s, start, i, hyphen, digit_start) is None);
        }
    }
}

/// Scans the dot-separated elements of `bytes` from `start` on, and reports the first thing
/// wrong with them, as `elements_error` orders it. The prefix before `start` is ASCII.
pub fn check_elements(bytes: &[u8], start: usize, hyphen: bool, digit_start: bool) -> (res: Option<
    InvalidNameReason,
>)
    requires
        start < bytes@.len(),
        forall|j: int| 0 <= j < start ==> #[trigger] bytes@[j] < 128,
    ensures
        res == elements_error(bytes@, start as int, hyphen, digit_start),
{
    let ghost s = bytes@;
    if bytes[start] == DOT {
        return Some(InvalidNameReason::StartsWithDot);
    }
    let mut has_dot = false;
    let mut element_index: usize = 0;
    let mut at_element_start = true;
    let mut pos: usize = start;
    while pos < bytes.len()
        invariant
            s == bytes@,
            start < s.len(),
            s[start as int] != DOT,
            start <= pos <= s.len(),
            forall|j: int| start <= j < pos ==> #[trigger] fault_at(s, start as int, j, hyphen, digit_start) is None,
            has_dot == (exists|j: int| start <= j < pos && s[j] == DOT),
            element_index == count_dots(s.subrange(start as int, pos as int)),
            element_index <= pos - start,
            at_element_start == starts_element(s, start as int, pos as int),
            forall|j: int| 0 <= j < pos ==> #[trigger] s[j] < 128,
        decreases s.len() - pos,
    {
        let b = bytes[pos];
        proof {
            assert(s.subrange(start as int, pos + 1).drop_last() =~= s.subrange(
                start as int,
                pos as int,
            ));
        }
        if b == DOT {
            if at_element_start {
                proof {
                    lemma_first_index(start as int, s.len() as int, is_fault(s, start as int, hyphen, digit_start), pos as int);
                }
                return Some(InvalidNameReason::EmptyElement);
            }
            has_dot = true;
            element_index = element_index + 1;
            at_element_start = true;
        } else if at_element_start && !digit_start && exec_is_ascii_digit(b) {
            proof {
                lemma_first_index(start as int, s.len() as int, is_fault(s, start as int, hyphen, digit_start), pos as int);
            }
            return Some(InvalidNameReason::ElementStartsWithDigit { element_index });
        } else if !exec_element_byte(b, hyphen) {
            proof {
                lemma_first_index(start as int, s.len() as int, is_fault(s, start as int, hyphen, digit_start), pos as int);
            }
            let character = char_at(bytes, pos);
            return Some(InvalidNameReason::InvalidCharacter { character, position: pos });
        } else {
            at_element_start = false;
        }
        assert(fault_at(s, start as int, pos as int, hyphen, digit_start) is None);
        assert(s[pos as int] < 128);
        pos = pos + 1;
    }
    assert(!has_fault(s, start as int, hyphen, digit_start));
    if at_element_start {
        return Some(InvalidNameReason::EmptyElement);
    }
    if !has_dot {
        return Some(InvalidNameReason::MissingDotSeparator);
    }
    None
}

} // verus!
