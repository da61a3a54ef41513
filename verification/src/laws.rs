//! Properties that hold across the name kinds and their validators.
use vstd::prelude::*;

use crate::error::{errors_equal, Error, InvalidNameReason};
use crate::interface_name::{interface_name_error, is_valid_interface_name};
use crate::member_name::{is_bad_member_byte, is_valid_member_name, member_byte, member_name_error};
use crate::chars::{char_at_byte, lemma_ascii_prefix, lemma_char_at_ascii_byte};
use crate::rules::{
    count_dots,
    element_byte,
    elements_error,
    has_fault,
    is_ascii_digit,
    lemma_first_index,
    HYPHEN,
    fault_at,
    first_index,
    utf8_bytes,
    has_dot_from,
    is_fault,
    lemma_first_index_exists,
    starts_element,
    COLON,
    DOT,
    MAX_NAME_LENGTH,
};
use crate::unique_name::{bus_daemon_name, is_valid_unique_name, unique_name_error};
use vstd::utf8::{encode_utf8_decode_utf8, encode_utf8_valid_utf8};
use crate::well_known_name::{is_valid_well_known_name, well_known_name_error};

verus! {

/// A reported invalid character stands at the reported position, every byte before it is
/// ASCII, and it is the character that the byte there stands for (see `char_at_byte`).
pub open spec fn reports_char_at(s: Seq<u8>, problem: Option<InvalidNameReason>) -> bool {
    problem matches Some(InvalidNameReason::InvalidCharacter { character, position }) ==> {
        &&& position < s.len()
        &&& character == char_at_byte(s, position as int)
        &&& forall|j: int| 0 <= j < position ==> #[trigger] s[j] < 128
    }
}

/// In the encoding of `text`, a reported invalid character is the character of `text` at
/// the reported position, and its encoding begins at that byte position.
pub open spec fn reports_char_of_text(text: Seq<char>, problem: Option<InvalidNameReason>) -> bool {
    problem matches Some(InvalidNameReason::InvalidCharacter { character, position }) ==> {
        &&& position < text.len()
        &&& character == text[position as int]
        &&& utf8_bytes(text.take(position as int)).len() == position
    }
}

/// A reported length is the name's length, and the limit is 255 bytes.
pub open spec fn reports_length(s: Seq<u8>, problem: Option<InvalidNameReason>) -> bool {
    &&& problem matches Some(InvalidNameReason::TooLong { actual, max }) ==> {
        &&& actual == s.len()
        &&& max == 255
    }
    &&& (s.len() > 255 <==> problem matches Some(InvalidNameReason::TooLong { .. }))
}

proof fn lemma_elements_report_char(s: Seq<u8>, start: int, hyphen: bool, digit_start: bool)
    requires
        0 <= start < s.len() <= MAX_NAME_LENGTH,
        forall|j: int| 0 <= j < start ==> #[trigger] s[j] < 128,
    ensures
        reports_char_at(s, elements_error(s, start, hyphen, digit_start)),
        !(elements_error(s, start, hyphen, digit_start) matches Some(
            InvalidNameReason::TooLong { .. },
        )),
{
    if s[start] != DOT && exists|i: int|
        start <= i < s.len() && #[trigger] fault_at(s, start, i, hyphen, digit_start) is Some {
        let k = choose|i: int|
            start <= i < s.len() && #[trigger] fault_at(s, start, i, hyphen, digit_start) is Some;
        lemma_first_index_exists(start, s.len() as int, is_fault(s, start, hyphen, digit_start), k);
        let f = first_index(start, s.len() as int, is_fault(s, start, hyphen, digit_start));
        assert forall|j: int| 0 <= j < f implies #[trigger] s[j] < 128 by {
            if j >= start {
                assert(!is_fault(s, start, hyphen, digit_start)(j));
                assert(fault_at(s, start, j, hyphen, digit_start) is None);
            }
        }
    }
}

proof fn lemma_member_report_char(s: Seq<u8>)
    requires
        0 < s.len() <= MAX_NAME_LENGTH,
    ensures
        reports_char_at(s, member_name_error(s)),
{
    if member_byte(s[0]) && exists|i: int| 1 <= i < s.len() && !member_byte(#[trigger] s[i]) {
        let k = choose|i: int| 1 <= i < s.len() && !member_byte(#[trigger] s[i]);
        lemma_first_index_exists(1, s.len() as int, is_bad_member_byte(s), k);
        let f = first_index(1, s.len() as int, is_bad_member_byte(s));
        assert forall|j: int| 0 <= j < f implies #[trigger] s[j] < 128 by {
            if j >= 1 {
                assert(!is_bad_member_byte(s)(j));
            }
        }
    }
}

/// Whatever name is refused for an invalid character, the error gives the position of a
/// byte of the name, preceded by ASCII bytes only, and the character that byte stands for;
/// and a name is refused as too long exactly when it has more than 255 bytes, the error then
/// giving its length and that limit (for any sequence of bytes that a slice can hold).
pub proof fn law_errors_point_at_the_name(s: Seq<u8>)
    requires
        s.len() <= usize::MAX,
    ensures
        reports_char_at(s, well_known_name_error(s)),
        reports_char_at(s, interface_name_error(s)),
        reports_char_at(s, unique_name_error(s)),
        reports_char_at(s, member_name_error(s)),
        reports_length(s, well_known_name_error(s)),
        reports_length(s, interface_name_error(s)),
        reports_length(s, unique_name_error(s)),
        reports_length(s, member_name_error(s)),
{
    if 0 < s.len() <= MAX_NAME_LENGTH {
        lemma_elements_report_char(s, 0, true, false);
        lemma_elements_report_char(s, 0, false, false);
        if s.len() > 1 && s[0] == COLON {
            lemma_elements_report_char(s, 1, true, true);
        }
        lemma_member_report_char(s);
    }
}

/// The character reported as invalid in a name given as text is the character of the text
/// at the reported position: every character before it is ASCII, one byte each, so its
/// encoding begins at that byte.
pub proof fn law_invalid_character_is_a_character_of_the_text(text: Seq<char>)
    requires
        utf8_bytes(text).len() <= usize::MAX,
    ensures
        reports_char_of_text(text, well_known_name_error(utf8_bytes(text))),
        reports_char_of_text(text, interface_name_error(utf8_bytes(text))),
        reports_char_of_text(text, unique_name_error(utf8_bytes(text))),
        reports_char_of_text(text, member_name_error(utf8_bytes(text))),
{
    let s = utf8_bytes(text);
    law_errors_point_at_the_name(s);
    encode_utf8_valid_utf8(text);
    encode_utf8_decode_utf8(text);
    let problems = seq![
        well_known_name_error(s),
        interface_name_error(s),
        unique_name_error(s),
        member_name_error(s),
    ];
    assert forall|k: int| 0 <= k < 4 implies reports_char_of_text(text, #[trigger] problems[k]) by {
        if let Some(InvalidNameReason::InvalidCharacter { character, position }) = problems[k] {
            assert(reports_char_at(s, problems[k]));
            lemma_ascii_prefix(text, position as int);
        }
    }
    assert(problems[0] == well_known_name_error(s));
    assert(problems[1] == interface_name_error(s));
    assert(problems[2] == unique_name_error(s));
    assert(problems[3] == member_name_error(s));
}

/// Every valid interface name is also a valid well-known bus name (the interface rules
/// only forbid `-` on top).
pub proof fn law_interface_names_are_well_known_names(s: Seq<u8>)
    requires
        is_valid_interface_name(s),
    ensures
        is_valid_well_known_name(s),
{
}

/// Where two scans see the same faults in `start..`, they report the same first one.
proof fn lemma_same_first_fault(s: Seq<u8>, start: int, h1: bool, h2: bool, d: bool)
    requires
        0 <= start < s.len(),
        forall|i: int|
            start <= i < s.len() ==> #[trigger] fault_at(s, start, i, h1, d) == fault_at(
                s,
                start,
                i,
                h2,
                d,
            ),
    ensures
        elements_error(s, start, h1, d) == elements_error(s, start, h2, d),
{
    if has_fault(s, start, h1, d) {
        let k = choose|i: int| start <= i < s.len() && #[trigger] fault_at(s, start, i, h1, d) is Some;
        lemma_first_index_exists(start, s.len() as int, is_fault(s, start, h1, d), k);
        let f = first_index(start, s.len() as int, is_fault(s, start, h1, d));
        assert forall|j: int| start <= j < f implies !#[trigger] is_fault(s, start, h2, d)(j) by {
            assert(!is_fault(s, start, h1, d)(j));
        }
        lemma_first_index(start, s.len() as int, is_fault(s, start, h2, d), f);
        assert(fault_at(s, start, k, h2, d) is Some);
    } else {
        assert forall|i: int| start <= i < s.len() implies #[trigger] fault_at(s, start, i, h2, d) is None by {
            assert(fault_at(s, start, i, h1, d) is None);
        }
    }
}

/// On a name without `-`, the well-known and interface validators report the same thing.
pub proof fn law_without_hyphens_well_known_and_interface_agree(s: Seq<u8>)
    requires
        forall|i: int| 0 <= i < s.len() ==> #[trigger] s[i] != HYPHEN,
    ensures
        well_known_name_error(s) == interface_name_error(s),
{
    if 0 < s.len() <= MAX_NAME_LENGTH {
        assert forall|i: int| 0 <= i < s.len() implies #[trigger] fault_at(s, 0, i, true, false)
            == fault_at(s, 0, i, false, false) by {
            assert(s[i] != HYPHEN);
        }
        lemma_same_first_fault(s, 0, true, false, false);
    }
}

/// On a valid well-known name that holds a `-`, the interface validator reports the first
/// `-` as an invalid character.
pub proof fn law_interface_refuses_first_hyphen(s: Seq<u8>, p: int)
    requires
        is_valid_well_known_name(s),
        0 <= p < s.len(),
        s[p] == HYPHEN,
        forall|j: int| 0 <= j < p ==> #[trigger] s[j] != HYPHEN,
    ensures
        interface_name_error(s) == Some(
            InvalidNameReason::InvalidCharacter { character: '-', position: p as usize },
        ),
{
    let f = is_fault(s, 0, false, false);
    assert forall|j: int| 0 <= j < p implies !#[trigger] f(j) by {
        assert(s[j] == DOT || element_byte(s[j], true));
        if starts_element(s, 0, j) {
            assert(s[j] != DOT && !is_ascii_digit(s[j]));
        }
    }
    assert(starts_element(s, 0, p) ==> !is_ascii_digit(s[p]));
    assert(f(p));
    assert(starts_element(s, 0, 0));
    lemma_first_index(0, s.len() as int, f, p);
    assert forall|j: int| 0 <= j <= p implies #[trigger] s[j] < 128 by {
        assert(s[j] == DOT || element_byte(s[j], true));
    }
    lemma_char_at_ascii_byte(s, p);
    assert(45u8 as char == '-');
}

/// The only name that is both a valid well-known name and a valid unique name is
/// `org.freedesktop.DBus`: unique names begin with `:`, which no well-known name holds.
pub proof fn law_unique_and_well_known_names_are_apart(s: Seq<u8>)
    requires
        is_valid_well_known_name(s),
        is_valid_unique_name(s),
    ensures
        s == bus_daemon_name(),
{
    if s != bus_daemon_name() {
        assert(s[0] == COLON);
        assert(!crate::rules::element_byte(s[0], true));
    }
}

/// No member name is a valid well-known, interface or unique name: member names hold no
/// `.`, the others at least one (and `org.freedesktop.DBus` holds one too).
pub proof fn law_member_names_are_apart(s: Seq<u8>)
    requires
        is_valid_member_name(s),
    ensures
        !is_valid_well_known_name(s),
        !is_valid_interface_name(s),
        !is_valid_unique_name(s),
{
    if has_dot_from(s, 0) {
        let i = choose|i: int| 0 <= i < s.len() && s[i] == DOT;
        assert(member_byte(s[i]));
    }
    if has_dot_from(s, 1) {
        let i = choose|i: int| 1 <= i < s.len() && s[i] == DOT;
        assert(member_byte(s[i]));
    }
    if s == bus_daemon_name() {
        assert(member_byte(s[3]));
    }
}

/// Equality of errors is an equivalence: reflexive, symmetric and transitive.
pub proof fn law_error_equality_is_an_equivalence(a: Error, b: Error, c: Error)
    ensures
        errors_equal(a, a),
        errors_equal(a, b) ==> errors_equal(b, a),
        errors_equal(a, b) && errors_equal(b, c) ==> errors_equal(a, c),
{
}

/// Each element holds at least one character, so a valid well-known or interface name has
/// at least 3 bytes, and a valid unique name at least 4.
pub proof fn law_minimum_lengths(s: Seq<u8>)
    ensures
        is_valid_well_known_name(s) ==> s.len() >= 3,
        is_valid_interface_name(s) ==> s.len() >= 3,
        is_valid_unique_name(s) ==> s.len() >= 4,
{
    if is_valid_well_known_name(s) || is_valid_interface_name(s) {
        let i = choose|i: int| 0 <= i < s.len() && s[i] == DOT;
        assert(starts_element(s, 0, 0));
        assert(i != s.len() - 1);
    }
    if is_valid_unique_name(s) && s != bus_daemon_name() {
        let i = choose|i: int| 1 <= i < s.len() && s[i] == DOT;
        assert(starts_element(s, 1, 1));
        assert(i != s.len() - 1);
    }
}

/// A `.` byte.
pub open spec fn dot_pred() -> spec_fn(u8) -> bool {
    |b: u8| b == 46u8
}

/// The number of `.` bytes before position `p` of `s`.
pub open spec fn dots_before(s: Seq<u8>, p: int) -> nat {
    s.subrange(0, p).filter(dot_pred()).len()
}

proof fn lemma_count_dots_is_filter(x: Seq<u8>)
    ensures
        count_dots(x) == x.filter(dot_pred()).len(),
        count_dots(x) <= x.len(),
    decreases x.len(),
{
    reveal(Seq::filter);
    if x.len() > 0 {
        lemma_count_dots_is_filter(x.drop_last());
    }
}

/// An element that begins with a digit, seen where the reported problem is not `None` in a
/// dotted name, lies at a byte after which `element_index` counts the `.` bytes before it.
proof fn lemma_digit_element(s: Seq<u8>, hyphen: bool)
    requires
        0 < s.len() <= MAX_NAME_LENGTH,
    ensures
        elements_error(s, 0, hyphen, false) matches Some(
            InvalidNameReason::ElementStartsWithDigit { element_index },
        ) ==> exists|p: int|
            0 <= p < s.len() && (p == 0 || s[p - 1] == 46u8) && 48 <= #[trigger] s[p] <= 57
                && element_index == dots_before(s, p),
{
    if s[0] != DOT && has_fault(s, 0, hyphen, false) {
        let k = choose|i: int| 0 <= i < s.len() && #[trigger] fault_at(s, 0, i, hyphen, false) is Some;
        lemma_first_index_exists(0, s.len() as int, is_fault(s, 0, hyphen, false), k);
        let f = first_index(0, s.len() as int, is_fault(s, 0, hyphen, false));
        lemma_count_dots_is_filter(s.subrange(0, f));
        if let Some(InvalidNameReason::ElementStartsWithDigit { element_index }) = fault_at(
            s,
            0,
            f,
            hyphen,
            false,
        ) {
            assert(element_index == dots_before(s, f));
            assert(48 <= s[f] <= 57);
        }
    }
}

/// Where a well-known or interface name is refused because an element begins with a digit,
/// there is such an element, and the index reported for it is the number of `.` bytes before
/// it (`-` separates nothing); a member name so refused begins with a digit, reported as
/// element 0; a unique name is never refused for it.
pub proof fn law_digit_element_is_counted_by_dots(s: Seq<u8>)
    ensures
        well_known_name_error(s) matches Some(
            InvalidNameReason::ElementStartsWithDigit { element_index },
        ) ==> exists|p: int|
            0 <= p < s.len() && (p == 0 || s[p - 1] == 46u8) && 48 <= #[trigger] s[p] <= 57
                && element_index == dots_before(s, p),
        interface_name_error(s) matches Some(
            InvalidNameReason::ElementStartsWithDigit { element_index },
        ) ==> exists|p: int|
            0 <= p < s.len() && (p == 0 || s[p - 1] == 46u8) && 48 <= #[trigger] s[p] <= 57
                && element_index == dots_before(s, p),
        member_name_error(s) matches Some(
            InvalidNameReason::ElementStartsWithDigit { element_index },
        ) ==> element_index == 0 && 48 <= s[0] <= 57,
        !(unique_name_error(s) matches Some(InvalidNameReason::ElementStartsWithDigit { .. })),
{
    if 0 < s.len() <= MAX_NAME_LENGTH {
        lemma_digit_element(s, true);
        lemma_digit_element(s, false);
        if s.len() > 1 && s[0] == COLON && s[1] != DOT && has_fault(s, 1, true, true) {
            let k = choose|i: int| 1 <= i < s.len() && #[trigger] fault_at(s, 1, i, true, true) is Some;
            lemma_first_index_exists(1, s.len() as int, is_fault(s, 1, true, true), k);
        }
    }
}

/// A byte that an element of a dotted name may hold: an ASCII letter or digit, `_`, and `-`
/// where `hyphen` allows it (spelled out).
pub open spec fn dotted_name_byte(b: u8, hyphen: bool) -> bool {
    ||| 48 <= b <= 57
    ||| 65 <= b <= 90
    ||| 97 <= b <= 122
    ||| b == 95
    ||| hyphen && b == 45
}

/// Nothing is wrong with the bytes before `p`: each is `.` or an element byte, and none that
/// begins an element is a `.` or a digit.
pub open spec fn nothing_wrong_before(s: Seq<u8>, p: int, hyphen: bool) -> bool {
    &&& forall|j: int| 0 <= j < p ==> #[trigger] s[j] == 46u8 || dotted_name_byte(s[j], hyphen)
    &&& forall|j: int|
        0 <= j < p && (j == 0 || s[j - 1] == 46u8) ==> #[trigger] s[j] != 46u8 && !(48 <= s[j] <= 57)
}

proof fn lemma_first_bad_byte(s: Seq<u8>, p: int, hyphen: bool)
    requires
        0 < s.len() <= MAX_NAME_LENGTH,
        0 <= p < s.len(),
        nothing_wrong_before(s, p, hyphen),
        s[p] != 46u8,
        !dotted_name_byte(s[p], hyphen),
    ensures
        elements_error(s, 0, hyphen, false) == Some(
            InvalidNameReason::InvalidCharacter {
                character: char_at_byte(s, p),
                position: p as usize,
            },
        ),
        s[p] < 128 ==> char_at_byte(s, p) == s[p] as char,
{
    if p > 0 {
        assert(s[0] != 46u8);
    }
    let f = is_fault(s, 0, hyphen, false);
    assert forall|j: int| 0 <= j < p implies !#[trigger] f(j) by {
        assert(s[j] == 46u8 || dotted_name_byte(s[j], hyphen));
        if j == 0 || s[j - 1] == 46u8 {
            assert(s[j] != 46u8 && !(48 <= s[j] <= 57));
        }
    }
    assert(f(p));
    lemma_first_index(0, s.len() as int, f, p);
    assert(has_fault(s, 0, hyphen, false));
    if s[p] < 128 {
        assert forall|j: int| 0 <= j <= p implies #[trigger] s[j] < 128 by {
            if j < p {
                assert(s[j] == 46u8 || dotted_name_byte(s[j], hyphen));
            }
        }
        lemma_char_at_ascii_byte(s, p);
    }
}

/// A well-known name is refused for the first byte, from the left, that no element may hold:
/// where nothing is wrong before byte `p` and that byte is neither `.` nor an element byte,
/// the error is an invalid character at `p`, whatever follows; an ASCII byte is reported as
/// itself.
pub proof fn law_well_known_reports_first_bad_byte(s: Seq<u8>, p: int)
    requires
        0 < s.len() <= MAX_NAME_LENGTH,
        0 <= p < s.len(),
        nothing_wrong_before(s, p, true),
        s[p] != 46u8,
        !dotted_name_byte(s[p], true),
    ensures
        well_known_name_error(s) == Some(
            InvalidNameReason::InvalidCharacter {
                character: char_at_byte(s, p),
                position: p as usize,
            },
        ),
        s[p] < 128 ==> char_at_byte(s, p) == s[p] as char,
{
    lemma_first_bad_byte(s, p, true);
}

/// An interface name is refused for the first byte, from the left, that no element may hold,
/// `-` included: where nothing is wrong before byte `p` under the interface rules and that
/// byte is neither `.` nor a letter, digit or `_`, the error is an invalid character at `p`,
/// whatever follows (a missing `.` is found only after); an ASCII byte is reported as itself.
pub proof fn law_interface_reports_first_bad_byte(s: Seq<u8>, p: int)
    requires
        0 < s.len() <= MAX_NAME_LENGTH,
        0 <= p < s.len(),
        nothing_wrong_before(s, p, false),
        s[p] != 46u8,
        !dotted_name_byte(s[p], false),
    ensures
        interface_name_error(s) == Some(
            InvalidNameReason::InvalidCharacter {
                character: char_at_byte(s, p),
                position: p as usize,
            },
        ),
        s[p] < 128 ==> char_at_byte(s, p) == s[p] as char,
{
    lemma_first_bad_byte(s, p, false);
}

proof fn lemma_fault_is_first(s: Seq<u8>, p: int, hyphen: bool)
    requires
        0 < s.len() <= MAX_NAME_LENGTH,
        0 <= p < s.len(),
        nothing_wrong_before(s, p, hyphen),
        p == 0 ==> s[0] != 46u8,
        fault_at(s, 0, p, hyphen, false) is Some,
    ensures
        elements_error(s, 0, hyphen, false) == fault_at(s, 0, p, hyphen, false),
{
    if p > 0 {
        assert(s[0] != 46u8);
    }
    let f = is_fault(s, 0, hyphen, false);
    assert forall|j: int| 0 <= j < p implies !#[trigger] f(j) by {
        assert(s[j] == 46u8 || dotted_name_byte(s[j], hyphen));
        if j == 0 || s[j - 1] == 46u8 {
            assert(s[j] != 46u8 && !(48 <= s[j] <= 57));
        }
    }
    assert(f(p));
    lemma_first_index(0, s.len() as int, f, p);
    assert(has_fault(s, 0, hyphen, false));
}

proof fn lemma_dotted_first_problem(s: Seq<u8>, p: int, hyphen: bool)
    requires
        0 < s.len() <= MAX_NAME_LENGTH,
        0 <= p < s.len(),
        nothing_wrong_before(s, p, hyphen),
    ensures
        p > 0 && s[p] == 46u8 && s[p - 1] == 46u8 ==> elements_error(s, 0, hyphen, false) == Some(
            InvalidNameReason::EmptyElement,
        ),
        (p == 0 || s[p - 1] == 46u8) && 48 <= s[p] <= 57 ==> elements_error(s, 0, hyphen, false)
            == Some(
            InvalidNameReason::ElementStartsWithDigit { element_index: dots_before(s, p) as usize },
        ),
{
    if p > 0 && s[p] == 46u8 && s[p - 1] == 46u8 {
        lemma_fault_is_first(s, p, hyphen);
    }
    if (p == 0 || s[p - 1] == 46u8) && 48 <= s[p] <= 57 {
        lemma_fault_is_first(s, p, hyphen);
        lemma_count_dots_is_filter(s.subrange(0, p));
    }
}

proof fn lemma_dotted_end(s: Seq<u8>, hyphen: bool)
    requires
        0 < s.len() <= MAX_NAME_LENGTH,
        nothing_wrong_before(s, s.len() as int, hyphen),
    ensures
        s[s.len() - 1] == 46u8 ==> elements_error(s, 0, hyphen, false) == Some(
            InvalidNameReason::EmptyElement,
        ),
        s[s.len() - 1] != 46u8 && (forall|j: int| 0 <= j < s.len() ==> #[trigger] s[j] != 46u8)
            ==> elements_error(s, 0, hyphen, false) == Some(
            InvalidNameReason::MissingDotSeparator,
        ),
        s[s.len() - 1] != 46u8 && (exists|j: int| 0 <= j < s.len() && #[trigger] s[j] == 46u8)
            ==> elements_error(s, 0, hyphen, false) is None,
{
    assert(s[0] != 46u8);
    assert forall|j: int| 0 <= j < s.len() implies #[trigger] fault_at(s, 0, j, hyphen, false) is None by {
        assert(s[j] == 46u8 || dotted_name_byte(s[j], hyphen));
        if j == 0 || s[j - 1] == 46u8 {
            assert(s[j] != 46u8 && !(48 <= s[j] <= 57));
        }
    }
    assert(!has_fault(s, 0, hyphen, false));
}

/// A well-known name in which nothing is wrong before byte `p` is refused, at `p`, for an
/// empty element where a `.` follows a `.`, and for an element beginning with a digit,
/// reported with the number of `.` bytes before it; where nothing is wrong in the whole name,
/// it is refused for an empty last element if it ends with `.`, else for a missing `.` if it
/// holds none, and accepted otherwise.
pub proof fn law_well_known_first_problem(s: Seq<u8>, p: int)
    requires
        0 < s.len() <= 255,
        0 <= p < s.len(),
        nothing_wrong_before(s, p, true),
    ensures
        p > 0 && s[p] == 46u8 && s[p - 1] == 46u8 ==> well_known_name_error(s) == Some(
            InvalidNameReason::EmptyElement,
        ),
        (p == 0 || s[p - 1] == 46u8) && 48 <= s[p] <= 57 ==> well_known_name_error(s) == Some(
            InvalidNameReason::ElementStartsWithDigit { element_index: dots_before(s, p) as usize },
        ),
{
    lemma_dotted_first_problem(s, p, true);
}

/// The same of an interface name, under the interface rules.
pub proof fn law_interface_first_problem(s: Seq<u8>, p: int)
    requires
        0 < s.len() <= 255,
        0 <= p < s.len(),
        nothing_wrong_before(s, p, false),
    ensures
        p > 0 && s[p] == 46u8 && s[p - 1] == 46u8 ==> interface_name_error(s) == Some(
            InvalidNameReason::EmptyElement,
        ),
        (p == 0 || s[p - 1] == 46u8) && 48 <= s[p] <= 57 ==> interface_name_error(s) == Some(
            InvalidNameReason::ElementStartsWithDigit { element_index: dots_before(s, p) as usize },
        ),
{
    lemma_dotted_first_problem(s, p, false);
}

/// A well-known or interface name with nothing wrong in any byte is refused for an empty last
/// element if it ends with `.`, else for a missing `.` if it holds none, and accepted
/// otherwise.
pub proof fn law_dotted_name_end(s: Seq<u8>)
    requires
        0 < s.len() <= 255,
    ensures
        nothing_wrong_before(s, s.len() as int, true) ==> {
            &&& s[s.len() - 1] == 46u8 ==> well_known_name_error(s) == Some(
                InvalidNameReason::EmptyElement,
            )
            &&& s[s.len() - 1] != 46u8 && (forall|j: int| 0 <= j < s.len() ==> #[trigger] s[j] != 46u8)
                ==> well_known_name_error(s) == Some(InvalidNameReason::MissingDotSeparator)
            &&& s[s.len() - 1] != 46u8 && (exists|j: int| 0 <= j < s.len() && #[trigger] s[j] == 46u8)
                ==> well_known_name_error(s) is None
        },
        nothing_wrong_before(s, s.len() as int, false) ==> {
            &&& s[s.len() - 1] == 46u8 ==> interface_name_error(s) == Some(
                InvalidNameReason::EmptyElement,
            )
            &&& s[s.len() - 1] != 46u8 && (forall|j: int| 0 <= j < s.len() ==> #[trigger] s[j] != 46u8)
                ==> interface_name_error(s) == Some(InvalidNameReason::MissingDotSeparator)
            &&& s[s.len() - 1] != 46u8 && (exists|j: int| 0 <= j < s.len() && #[trigger] s[j] == 46u8)
                ==> interface_name_error(s) is None
        },
{
    if nothing_wrong_before(s, s.len() as int, true) {
        lemma_dotted_end(s, true);
    }
    if nothing_wrong_before(s, s.len() as int, false) {
        lemma_dotted_end(s, false);
    }
}

} // verus!
