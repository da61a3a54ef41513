//! The rules of each name kind spelled out byte by byte, and the order in which the
//! validators report what is wrong.
use vstd::prelude::*;

use crate::chars::{char_at_byte, lemma_char_at_ascii_byte};
use crate::error::InvalidNameReason;
use crate::interface_name::{interface_name_error, is_valid_interface_name};
use crate::laws::dotted_name_byte;
use crate::member_name::{is_bad_member_byte, is_valid_member_name, member_name_error};
use crate::rules::{has_fault, is_fault, lemma_first_index};
use crate::text::{decimal, digit_char};
use crate::unique_name::{is_valid_unique_name, unique_name_error};
use crate::well_known_name::{is_valid_well_known_name, well_known_name_error};

verus! {

/// The dot-separated elements from `start` on follow the rules: only `.` and element bytes;
/// no element is empty, and none begins with a digit unless `digit_start`; the name does not
/// end with `.`; there is a `.`.
pub open spec fn dotted_rules(s: Seq<u8>, start: int, hyphen: bool, digit_start: bool) -> bool {
    &&& forall|i: int| start <= i < s.len() ==> #[trigger] s[i] == 46u8 || dotted_name_byte(s[i], hyphen)
    &&& forall|i: int|
        start <= i < s.len() && (i == start || s[i - 1] == 46u8) ==> #[trigger] s[i] != 46u8 && (
        digit_start || !(48 <= s[i] <= 57))
    &&& s[s.len() - 1] != 46u8
    &&& exists|i: int| start <= i < s.len() && #[trigger] s[i] == 46u8
}

proof fn lemma_dotted_rules(s: Seq<u8>, start: int, hyphen: bool, digit_start: bool)
    requires
        0 <= start < s.len(),
    ensures
        crate::rules::elements_valid(s, start, hyphen, digit_start) <==> dotted_rules(
            s,
            start,
            hyphen,
            digit_start,
        ),
{
    assert forall|b: u8| crate::rules::element_byte(b, hyphen) == dotted_name_byte(b, hyphen) by {}
    if crate::rules::elements_valid(s, start, hyphen, digit_start) {
        assert forall|i: int| start <= i < s.len() implies #[trigger] s[i] == 46u8 || dotted_name_byte(s[i], hyphen) by {
            assert(s[i] == crate::rules::DOT || crate::rules::element_byte(s[i], hyphen));
        }
        assert forall|i: int|
            start <= i < s.len() && (i == start || s[i - 1] == 46u8) implies #[trigger] s[i] != 46u8 && (
            digit_start || !(48 <= s[i] <= 57)) by {
            assert(crate::rules::starts_element(s, start, i));
        }
        let k = choose|i: int| start <= i < s.len() && s[i] == crate::rules::DOT;
        assert(s[k] == 46u8);
    }
    if dotted_rules(s, start, hyphen, digit_start) {
        assert forall|i: int| start <= i < s.len() implies s[i] == crate::rules::DOT || crate::rules::element_byte(#[trigger] s[i], hyphen) by {
            assert(s[i] == 46u8 || dotted_name_byte(s[i], hyphen));
        }
        assert forall|i: int|
            start <= i < s.len() && #[trigger] crate::rules::starts_element(s, start, i) implies s[i] != crate::rules::DOT && (
            digit_start || !crate::rules::is_ascii_digit(s[i])) by {
            assert(s[i] != 46u8 && (digit_start || !(48 <= s[i] <= 57)));
        }
        let k = choose|i: int| start <= i < s.len() && #[trigger] s[i] == 46u8;
        assert(crate::rules::has_dot_from(s, start));
    }
}

/// A well-known name: 1 to 255 bytes, dot-separated elements of letters, digits, `_` and `-`,
/// none empty or beginning with a digit, at least two of them.
pub proof fn law_well_known_rules(s: Seq<u8>)
    ensures
        is_valid_well_known_name(s) <==> 1 <= s.len() <= 255 && dotted_rules(s, 0, true, false),
{
    if 1 <= s.len() {
        lemma_dotted_rules(s, 0, true, false);
    }
}

/// An interface name: as a well-known name, without `-`.
pub proof fn law_interface_rules(s: Seq<u8>)
    ensures
        is_valid_interface_name(s) <==> 1 <= s.len() <= 255 && dotted_rules(s, 0, false, false),
{
    if 1 <= s.len() {
        lemma_dotted_rules(s, 0, false, false);
    }
}

/// A unique name: `org.freedesktop.DBus`, or 2 to 255 bytes, a `:` and then dot-separated
/// elements of letters, digits, `_` and `-`, none empty, at least two of them.
pub proof fn law_unique_rules(s: Seq<u8>)
    ensures
        is_valid_unique_name(s) <==> (s =~= seq![
            111u8, 114u8, 103u8, 46u8, 102u8, 114u8, 101u8, 101u8, 100u8, 101u8,
            115u8, 107u8, 116u8, 111u8, 112u8, 46u8, 68u8, 66u8, 117u8, 115u8,
        ] || (2 <= s.len() <= 255 && s[0] == 58u8 && dotted_rules(s, 1, true, true))),
{
    if 2 <= s.len() {
        lemma_dotted_rules(s, 1, true, true);
    }
}

/// A member name: 1 to 255 bytes, letters, digits and `_`, not beginning with a digit.
pub proof fn law_member_rules(s: Seq<u8>)
    ensures
        is_valid_member_name(s) <==> 1 <= s.len() <= 255 && !(48 <= s[0] <= 57) && forall|i: int|
            0 <= i < s.len() ==> dotted_name_byte(#[trigger] s[i], false),
{
}

/// An empty name is refused as empty, whatever its kind; so is a unique name that is a lone
/// `:`.
pub proof fn law_empty_names(s: Seq<u8>)
    requires
        s.len() == 0,
    ensures
        well_known_name_error(s) == Some(InvalidNameReason::Empty),
        interface_name_error(s) == Some(InvalidNameReason::Empty),
        unique_name_error(s) == Some(InvalidNameReason::Empty),
        member_name_error(s) == Some(InvalidNameReason::Empty),
        unique_name_error(seq![58u8]) == Some(InvalidNameReason::Empty),
{
}

/// A well-known or interface name of a fitting length that begins with `.` is refused for
/// that first; a unique name whose `:` is followed by `.` likewise.
pub proof fn law_leading_dot(s: Seq<u8>)
    requires
        1 <= s.len() <= 255,
    ensures
        s[0] == 46u8 ==> well_known_name_error(s) == Some(InvalidNameReason::StartsWithDot),
        s[0] == 46u8 ==> interface_name_error(s) == Some(InvalidNameReason::StartsWithDot),
        s.len() >= 2 && s[0] == 58u8 && s[1] == 46u8 ==> unique_name_error(s) == Some(
            InvalidNameReason::StartsWithDot,
        ),
{
}

/// A unique name of a fitting length that is not `org.freedesktop.DBus` and does not begin
/// with `:` is refused for that first.
pub proof fn law_unique_needs_colon(s: Seq<u8>)
    requires
        1 <= s.len() <= 255,
        s[0] != 58u8,
        !(s =~= seq![
            111u8, 114u8, 103u8, 46u8, 102u8, 114u8, 101u8, 101u8, 100u8, 101u8,
            115u8, 107u8, 116u8, 111u8, 112u8, 46u8, 68u8, 66u8, 117u8, 115u8,
        ]),
    ensures
        unique_name_error(s) == Some(InvalidNameReason::MissingColonPrefix),
{
}

/// A unique name is refused for the first byte after its `:`, from the left, that no element
/// may hold, wherever it stands.
pub proof fn law_unique_reports_first_bad_byte(s: Seq<u8>, p: int)
    requires
        2 <= s.len() <= 255,
        s[0] == 58u8,
        1 <= p < s.len(),
        s[1] != 46u8,
        forall|j: int| 1 <= j < p ==> #[trigger] s[j] == 46u8 || dotted_name_byte(s[j], true),
        forall|j: int| 1 < j < p && s[j - 1] == 46u8 ==> #[trigger] s[j] != 46u8,
        s[p] != 46u8,
        !dotted_name_byte(s[p], true),
    ensures
        unique_name_error(s) == Some(
            InvalidNameReason::InvalidCharacter {
                character: char_at_byte(s, p),
                position: p as usize,
            },
        ),
        s[p] < 128 ==> char_at_byte(s, p) == s[p] as char,
{
    assert(s[0] != 111u8);
    let f = is_fault(s, 1, true, true);
    assert forall|j: int| 1 <= j < p implies !#[trigger] f(j) by {
        assert(s[j] == 46u8 || dotted_name_byte(s[j], true));
        if j > 1 && s[j - 1] == 46u8 {
            assert(s[j] != 46u8);
        }
    }
    assert(f(p));
    lemma_first_index(1, s.len() as int, f, p);
    assert(has_fault(s, 1, true, true));
    if s[p] < 128 {
        assert forall|j: int| 0 <= j <= p implies #[trigger] s[j] < 128 by {
            if 1 <= j < p {
                assert(s[j] == 46u8 || dotted_name_byte(s[j], true));
            }
        }
        lemma_char_at_ascii_byte(s, p);
    }
}

/// A member name is refused for its first byte when that is a digit (as an element beginning
/// with a digit) or no letter or `_` (as an invalid character); otherwise for the first later
/// byte, from the left, that is no letter, digit or `_`.
pub proof fn law_member_reports_first_bad_byte(s: Seq<u8>, p: int)
    requires
        1 <= s.len() <= 255,
        0 <= p < s.len(),
        p > 0 ==> dotted_name_byte(s[0], false) && !(48 <= s[0] <= 57),
        forall|j: int| 0 <= j < p ==> dotted_name_byte(#[trigger] s[j], false),
        !dotted_name_byte(s[p], false) || (p == 0 && 48 <= s[0] <= 57),
    ensures
        p == 0 && 48 <= s[0] <= 57 ==> member_name_error(s) == Some(
            InvalidNameReason::ElementStartsWithDigit { element_index: 0 },
        ),
        !dotted_name_byte(s[p], false) ==> member_name_error(s) == Some(
            InvalidNameReason::InvalidCharacter {
                character: char_at_byte(s, p),
                position: p as usize,
            },
        ),
        s[p] < 128 ==> char_at_byte(s, p) == s[p] as char,
{
    if p > 0 {
        let f = is_bad_member_byte(s);
        assert forall|j: int| 1 <= j < p implies !#[trigger] f(j) by {
            assert(dotted_name_byte(s[j], false));
        }
        assert(f(p));
        lemma_first_index(1, s.len() as int, f, p);
    }
    if s[p] < 128 {
        assert forall|j: int| 0 <= j <= p implies #[trigger] s[j] < 128 by {
            if j < p {
                assert(dotted_name_byte(s[j], false));
            }
        }
        lemma_char_at_ascii_byte(s, p);
    }
}

/// The digits of `d` read as a decimal number, most significant first.
pub open spec fn decimal_value(d: Seq<char>) -> int
    decreases d.len(),
{
    if d.len() == 0 {
        0
    } else {
        decimal_value(d.drop_last()) * 10 + (d.last() as int - 48)
    }
}

/// The decimal form of a number is made of the digits `0` to `9`, has no leading zero
/// (except for zero itself), and reads back as that number.
pub proof fn law_decimal_reads_back(n: nat)
    ensures
        forall|i: int| 0 <= i < decimal(n).len() ==> 48 <= #[trigger] (decimal(n)[i] as int) <= 57,
        decimal(n).len() >= 1,
        decimal(n).len() > 1 ==> decimal(n)[0] != '0',
        decimal_value(decimal(n)) == n,
    decreases n,
{
    if n >= 10 {
        law_decimal_reads_back(n / 10);
        let d = decimal(n);
        let q = decimal(n / 10);
        assert(d == q.push(digit_char(n % 10)));
        assert(d.drop_last() =~= q);
        assert(d.last() == digit_char(n % 10));
        assert(digit_char(n % 10) as int == 48 + n % 10);
        assert(decimal_value(d) == decimal_value(q) * 10 + (n % 10));
        assert(decimal_value(d) == (n / 10) * 10 + n % 10);
        assert(d[0] == q[0]);
        if n / 10 < 10 {
            assert(q == seq![digit_char(n / 10)]);
            assert(digit_char(n / 10) as int == 48 + n / 10);
            assert(q[0] as int != '0' as int);
        } else {
            assert(q == decimal(n / 100).push(digit_char((n / 10) % 10)));
            assert(q.len() > 1);
        }
    } else {
        assert(digit_char(n) as int == 48 + n);
        assert(decimal(n).drop_last() =~= Seq::<char>::empty());
        assert(decimal_value(Seq::<char>::empty()) == 0);
        assert(decimal(n).last() == digit_char(n));
    }
}

} // verus!
