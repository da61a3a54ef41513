//! What a `unix:` address yields: the transport its options describe, the address one
//! connects to, and the text it is written as.
use vstd::prelude::*;
use vstd::utf8::encode_utf8;

use crate::unix::{connect_address, options_socket, percent_encoded, UnixSocketView};

verus! {

/// A byte that an address holds as itself: an ASCII letter or digit, or one of `-`, `_`,
/// `/`, `.`, `\` and `*`.
pub open spec fn address_plain_byte(b: u8) -> bool {
    ||| 48 <= b <= 57
    ||| 65 <= b <= 90
    ||| 97 <= b <= 122
    ||| b == 45 || b == 95 || b == 47 || b == 46 || b == 92 || b == 42
}

/// The lower-case hexadecimal digit of `d` (`d < 16`), spelled out.
pub open spec fn lower_hex(d: int) -> char {
    if d < 10 {
        ((48 + d) as u32) as char
    } else {
        ((97 + (d - 10)) as u32) as char
    }
}

/// The options `path`, `dir` and `tmpdir`, each given alone, describe a socket of that kind
/// with the bytes of the text given, whether or not the platform supports abstract sockets;
/// `abstract` alone describes an abstract socket exactly where those are supported.
pub proof fn law_one_option_one_socket(p: Seq<char>, abstract_supported: bool)
    ensures
        options_socket(Some(p), None, None, None, abstract_supported) == Some(
            UnixSocketView::File(encode_utf8(p)),
        ),
        options_socket(None, None, Some(p), None, abstract_supported) == Some(
            UnixSocketView::Dir(encode_utf8(p)),
        ),
        options_socket(None, None, None, Some(p), abstract_supported) == Some(
            UnixSocketView::TmpDir(encode_utf8(p)),
        ),
        options_socket(None, Some(p), None, None, true) == Some(
            UnixSocketView::Abstract(encode_utf8(p)),
        ),
        options_socket(None, Some(p), None, None, false) is None,
{
}

/// No option, or more than one, describes no socket.
pub proof fn law_options_other_than_one_describe_nothing(
    path: Option<Seq<char>>,
    abstract_name: Option<Seq<char>>,
    dir: Option<Seq<char>>,
    tmpdir: Option<Seq<char>>,
    abstract_supported: bool,
)
    requires
        (path is Some) as int + (abstract_name is Some) as int + (dir is Some) as int + (
        tmpdir is Some) as int != 1,
    ensures
        options_socket(path, abstract_name, dir, tmpdir, abstract_supported) is None,
{
}

/// One connects to a file socket at its path, and to an abstract socket at a NUL byte
/// followed by its name, whatever the name holds; `dir` and `tmpdir` sockets are not for
/// connecting.
pub proof fn law_connect_addresses(n: Seq<u8>)
    ensures
        connect_address(UnixSocketView::File(n)) == Some(n),
        connect_address(UnixSocketView::Abstract(n)) is Some,
        connect_address(UnixSocketView::Abstract(n)).unwrap().len() == n.len() + 1,
        connect_address(UnixSocketView::Abstract(n)).unwrap()[0] == 0u8,
        forall|i: int|
            0 <= i < n.len() ==> #[trigger] connect_address(UnixSocketView::Abstract(n)).unwrap()[i
                + 1] == n[i],
        connect_address(UnixSocketView::Dir(n)) is None,
        connect_address(UnixSocketView::TmpDir(n)) is None,
{
}

/// A path made of bytes that an address holds as themselves is written as those bytes, one
/// character each.
pub proof fn law_plain_bytes_stand_for_themselves(bytes: Seq<u8>)
    requires
        forall|i: int| 0 <= i < bytes.len() ==> address_plain_byte(#[trigger] bytes[i]),
    ensures
        percent_encoded(bytes) == Seq::new(bytes.len(), |i: int| bytes[i] as char),
    decreases bytes.len(),
{
    if bytes.len() > 0 {
        let rest = bytes.drop_last();
        assert forall|i: int| 0 <= i < rest.len() implies address_plain_byte(#[trigger] rest[i]) by {
            assert(rest[i] == bytes[i]);
        }
        law_plain_bytes_stand_for_themselves(rest);
        assert(address_plain_byte(bytes.last()));
        assert(percent_encoded(bytes) =~= Seq::new(bytes.len(), |i: int| bytes[i] as char));
    }
}

/// Any other byte is written as `%` and its two lower-case hexadecimal digits.
pub proof fn law_other_bytes_are_escaped(b: u8)
    requires
        !address_plain_byte(b),
    ensures
        percent_encoded(seq![b]) == seq!['%', lower_hex(b as int / 16), lower_hex(b as int % 16)],
{
    assert(seq![b].drop_last() =~= Seq::<u8>::empty());
    assert(seq![b].last() == b);
    assert(!crate::unix::optionally_escaped(b));
    let hi = b as int / 16;
    let lo = b as int % 16;
    assert((b / 16) as nat == hi && (b % 16) as nat == lo);
    assert(crate::unix::hex_digit(hi as nat) == lower_hex(hi));
    assert(crate::unix::hex_digit(lo as nat) == lower_hex(lo));
    assert(percent_encoded(seq![b]) == percent_encoded(Seq::<u8>::empty()) + crate::unix::escape_byte(b));
    assert(percent_encoded(seq![b]) =~= seq!['%', lower_hex(b as int / 16), lower_hex(b as int % 16)]);
}

/// Writing two runs of bytes one after the other writes each as it is written alone.
pub proof fn law_escaping_is_bytewise(a: Seq<u8>, b: Seq<u8>)
    ensures
        percent_encoded(a + b) == percent_encoded(a) + percent_encoded(b),
    decreases b.len(),
{
    if b.len() == 0 {
        assert(a + b =~= a);
        assert(percent_encoded(a) + percent_encoded(b) =~= percent_encoded(a));
    } else {
        law_escaping_is_bytewise(a, b.drop_last());
        assert((a + b).drop_last() =~= a + b.drop_last());
        assert((a + b).last() == b.last());
        assert(percent_encoded(a + b) =~= percent_encoded(a) + percent_encoded(b));
    }
}

} // verus!
