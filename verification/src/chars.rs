//! Which character a byte of a name belongs to.
use vstd::prelude::*;
use vstd::string::StrSliceExecFns;
use vstd::utf8::{
    char_is_scalar,
    char_u32_cast,
    decode_utf8,
    decode_utf8_encode_utf8,
    encode_scalar,
    encode_utf8,
    encode_utf8_decode_utf8,
    valid_utf8,
};

verus! {

/// The character whose UTF-8 encoding covers byte `p` of the encoding of `chars`: whole
/// characters are skipped while their encodings lie before `p`.
pub open spec fn covering_char(chars: Seq<char>, p: int) -> char
    decreases chars.len(),
{
    if chars.len() <= 1 || p < encode_scalar(chars[0] as u32).len() {
        chars[0]
    } else {
        covering_char(chars.drop_first(), p - encode_scalar(chars[0] as u32).len())
    }
}

/// The character that byte `p` of `bytes` stands for: where `bytes` is valid UTF-8, the
/// character whose encoding covers that byte; otherwise the byte read as a character.
pub open spec fn char_at_byte(bytes: Seq<u8>, p: int) -> char {
    if valid_utf8(bytes) {
        covering_char(decode_utf8(bytes), p)
    } else {
        bytes[p] as char
    }
}

proof fn lemma_width_one_byte(v: u32)
    requires
        vstd::utf8::is_scalar(v),
        encode_scalar(v)[0] < 128,
    ensures
        v <= 0x7f,
        encode_scalar(v) == seq![v as u8],
{
    if vstd::utf8::has_width_2_encoding(v) {
        let b = ((v >> 6) & 0x1F) as u8;
        assert(0xC0u8 | b >= 0xC0u8) by (bit_vector);
    } else if vstd::utf8::has_width_3_encoding(v) {
        let b = ((v >> 12) & 0x0F) as u8;
        assert(0xE0u8 | b >= 0xE0u8) by (bit_vector);
    } else if vstd::utf8::has_width_4_encoding(v) {
        let b = ((v >> 18) & 0x7) as u8;
        assert(0xF0u8 | b >= 0xF0u8) by (bit_vector);
    }
    assert(v <= 0x7f ==> (v & 0x7F) as u8 == v as u8) by (bit_vector);
}

/// Where the bytes before position `p` of an encoding are all ASCII, each of them is a
/// character of its own: byte `p` begins character `p`, which is the character covering it,
/// and is that byte itself when the byte is ASCII too.
pub proof fn lemma_ascii_prefix(chars: Seq<char>, p: int)
    requires
        0 <= p < encode_utf8(chars).len(),
        forall|j: int| 0 <= j < p ==> #[trigger] encode_utf8(chars)[j] < 128,
    ensures
        p < chars.len(),
        covering_char(chars, p) == chars[p],
        encode_utf8(chars.take(p)).len() == p,
        encode_utf8(chars)[p] < 128 ==> chars[p] == encode_utf8(chars)[p] as char,
    decreases p,
{
    let e = encode_utf8(chars);
    let c0 = chars[0] as u32;
    char_is_scalar(chars[0]);
    assert(chars.len() > 0);
    assert(e == encode_scalar(c0) + encode_utf8(chars.drop_first()));
    assert(encode_utf8(chars.take(0)) =~= Seq::<u8>::empty());
    if p == 0 {
        if e[0] < 128 {
            lemma_width_one_byte(c0);
            char_u32_cast(chars[0], c0);
            assert((c0 as u8) as u32 == c0);
        }
    } else {
        assert(e[0] < 128);
        assert(encode_scalar(c0).len() >= 1);
        assert(e[0] == encode_scalar(c0)[0]);
        lemma_width_one_byte(c0);
        let rest = chars.drop_first();
        assert(encode_utf8(rest) =~= e.skip(1));
        assert forall|j: int| 0 <= j < p - 1 implies #[trigger] encode_utf8(rest)[j] < 128 by {
            assert(encode_utf8(rest)[j] == e[j + 1]);
        }
        lemma_ascii_prefix(rest, p - 1);
        assert(chars.take(p).drop_first() =~= rest.take(p - 1));
        assert(chars.take(p)[0] == chars[0]);
        assert(encode_utf8(chars.take(p)) == encode_scalar(c0) + encode_utf8(rest.take(p - 1)));
        assert(encode_utf8(rest)[p - 1] == e[p]);
    }
}

/// std's `str::from_utf8`: the bytes as a string slice exactly when they are valid UTF-8
/// (overlong encodings and surrogates excluded), the slice then holding those very bytes.
#[verifier::external_body]
pub fn str_from_utf8(bytes: &[u8]) -> (r: Option<&str>)
    ensures
        r is Some <==> valid_utf8(bytes@),
        r matches Some(text) ==> encode_utf8(text@) == bytes@,
{
    std::str::from_utf8(bytes).ok()
}

/// The character that byte `p` of `bytes` stands for, where all bytes before it are ASCII.
pub fn char_at(bytes: &[u8], p: usize) -> (c: char)
    requires
        p < bytes@.len(),
        forall|j: int| 0 <= j < p ==> #[trigger] bytes@[j] < 128,
    ensures
        c == char_at_byte(bytes@, p as int),
        bytes@[p as int] < 128 ==> c == bytes@[p as int] as char,
{
    match str_from_utf8(bytes) {
        Some(text) => {
            proof {
                encode_utf8_decode_utf8(text@);
                lemma_ascii_prefix(text@, p as int);
            }
            text.get_char(p)
        },
        None => bytes[p] as char,
    }
}

/// Where the bytes up to and including position `p` are all ASCII, byte `p` stands for
/// itself.
pub proof fn lemma_char_at_ascii_byte(bytes: Seq<u8>, p: int)
    requires
        0 <= p < bytes.len(),
        forall|j: int| 0 <= j <= p ==> #[trigger] bytes[j] < 128,
    ensures
        char_at_byte(bytes, p) == bytes[p] as char,
{
    if valid_utf8(bytes) {
        let chars = decode_utf8(bytes);
        decode_utf8_encode_utf8(bytes);
        lemma_ascii_prefix(chars, p);
    }
}

} // verus!
