//! The Unix domain socket transport of a D-Bus address (`unix:path=...` and its kin).
//!
//! Paths and abstract names are held as the bytes of the OS string they stand for.
use vstd::prelude::*;

use crate::chars::str_from_utf8;
use crate::rules::{is_ascii_alnum, utf8_bytes};
use vstd::utf8::{decode_utf8, encode_utf8_decode_utf8, valid_utf8};
use crate::text::{digit_char, push_char, push_str};

verus! {

/// A Unix domain socket path in a D-Bus address.
#[derive(Debug, PartialEq, Eq)]
#[non_exhaustive]
pub enum UnixSocket {
    /// A path to a unix domain socket on the filesystem.
    File(Vec<u8>),
    /// An abstract unix domain socket name.
    Abstract(Vec<u8>),
    /// A listenable address using the specified path, in which a socket file with a random file
    /// name starting with 'dbus-' will be created by the server.
    ///
    /// This address is mostly relevant to server (typically bus broker) implementations.
    Dir(Vec<u8>),
    /// The same as `Dir`, except that on platforms with abstract sockets, the server may attempt
    /// to create an abstract socket whose name starts with this directory instead of a path-based
    /// socket.
    ///
    /// This address is mostly relevant to server (typically bus broker) implementations.
    TmpDir(Vec<u8>),
}

/// The kind of a socket and the bytes of its path or name.
pub enum UnixSocketView {
    File(Seq<u8>),
    Abstract(Seq<u8>),
    Dir(Seq<u8>),
    TmpDir(Seq<u8>),
}

impl View for UnixSocket {
    type V = UnixSocketView;

    open spec fn view(&self) -> UnixSocketView {
        match self {
            UnixSocket::File(p) => UnixSocketView::File(p@),
            UnixSocket::Abstract(n) => UnixSocketView::Abstract(n@),
            UnixSocket::Dir(p) => UnixSocketView::Dir(p@),
            UnixSocket::TmpDir(p) => UnixSocketView::TmpDir(p@),
        }
    }
}

impl Clone for UnixSocket {
    fn clone(&self) -> (c: Self)
        ensures
            c@ == self@,
    {
        match self {
            UnixSocket::File(p) => {
                let c = p.clone();
                assert(c@ =~= p@);
                UnixSocket::File(c)
            },
            UnixSocket::Abstract(n) => {
                let c = n.clone();
                assert(c@ =~= n@);
                UnixSocket::Abstract(c)
            },
            UnixSocket::Dir(p) => {
                let c = p.clone();
                assert(c@ =~= p@);
                UnixSocket::Dir(c)
            },
            UnixSocket::TmpDir(p) => {
                let c = p.clone();
                assert(c@ =~= p@);
                UnixSocket::TmpDir(c)
            },
        }
    }
}

/// Why a Unix transport cannot be made or used.
#[derive(Debug)]
pub enum TransportError {
    /// The address is malformed; the text says how.
    Address(String),
    /// The address names something one cannot connect to.
    Unsupported,
}

/// A Unix domain socket transport in a D-Bus address.
#[derive(Debug, PartialEq, Eq)]
pub struct Unix {
    path: UnixSocket,
}

impl Clone for TransportError {
    fn clone(&self) -> (c: Self)
        ensures
            c == *self,
    {
        match self {
            TransportError::Address(m) => TransportError::Address(m.clone()),
            TransportError::Unsupported => TransportError::Unsupported,
        }
    }
}

impl Clone for Unix {
    fn clone(&self) -> (c: Self)
        ensures
            c@ == self@,
    {
        Unix { path: self.path.clone() }
    }
}

impl View for Unix {
    type V = UnixSocketView;

    closed spec fn view(&self) -> UnixSocketView {
        self.path@
    }
}

/// The socket that the options `path`, `abstract`, `dir` and `tmpdir` of an address
/// describe (each the text given for it, if given): exactly one of them must be given, and
/// `abstract` only where abstract sockets are supported.
pub open spec fn options_socket(
    path: Option<Seq<char>>,
    abstract_name: Option<Seq<char>>,
    dir: Option<Seq<char>>,
    tmpdir: Option<Seq<char>>,
    abstract_supported: bool,
) -> Option<UnixSocketView> {
    match (path, abstract_name, dir, tmpdir) {
        (Some(p), None, None, None) => Some(UnixSocketView::File(utf8_bytes(p))),
        (None, Some(p), None, None) => if abstract_supported {
            Some(UnixSocketView::Abstract(utf8_bytes(p)))
        } else {
            None
        },
        (None, None, Some(p), None) => Some(UnixSocketView::Dir(utf8_bytes(p))),
        (None, None, None, Some(p)) => Some(UnixSocketView::TmpDir(utf8_bytes(p))),
        _ => None,
    }
}

/// The view of an optional string slice.
pub open spec fn opt_view(s: Option<&str>) -> Option<Seq<char>> {
    match s {
        Some(t) => Some(t@),
        None => None,
    }
}

/// The address to connect to for a socket, if one can connect to it: a file's path, or an
/// abstract name preceded by a NUL byte; a `dir` or `tmpdir` socket is for servers only.
pub open spec fn connect_address(socket: UnixSocketView) -> Option<Seq<u8>> {
    match socket {
        UnixSocketView::File(p) => Some(p),
        UnixSocketView::Abstract(n) => Some(seq![0u8] + n),
        UnixSocketView::Dir(_) => None,
        UnixSocketView::TmpDir(_) => None,
    }
}

/// Bytes that the D-Bus address syntax allows without escaping: ASCII letters and digits,
/// and `-`, `_`, `/`, `.`, `\` and `*`.
pub open spec fn optionally_escaped(b: u8) -> bool {
    is_ascii_alnum(b) || b == 45 || b == 95 || b == 47 || b == 46 || b == 92 || b == 42
}

/// The lower-case hexadecimal digit of `d < 16`.
pub open spec fn hex_digit(d: nat) -> char {
    if d < 10 {
        digit_char(d)
    } else {
        ((87 + d) as u32) as char
    }
}

/// One byte as it stands in an address: itself if it needs no escaping, else `%` and its
/// two hexadecimal digits.
pub open spec fn escape_byte(b: u8) -> Seq<char> {
    if optionally_escaped(b) {
        seq![b as char]
    } else {
        seq!['%', hex_digit((b / 16) as nat), hex_digit((b % 16) as nat)]
    }
}

/// The bytes as they stand in an address, each escaped as needed.
pub open spec fn percent_encoded(bytes: Seq<u8>) -> Seq<char>
    decreases bytes.len(),
{
    if bytes.len() == 0 {
        seq![]
    } else {
        percent_encoded(bytes.drop_last()) + escape_byte(bytes.last())
    }
}

/// The key under which a socket stands in an address, with its `=`: `path=`, `abstract=`,
/// `dir=` or `tmpdir=`.
pub open spec fn socket_key(socket: UnixSocketView) -> Seq<char> {
    match socket {
        UnixSocketView::File(_) => "path="@,
        UnixSocketView::Abstract(_) => "abstract="@,
        UnixSocketView::Dir(_) => "dir="@,
        UnixSocketView::TmpDir(_) => "tmpdir="@,
    }
}

/// The bytes of a socket's path or name.
pub open spec fn socket_bytes(socket: UnixSocketView) -> Seq<u8> {
    match socket {
        UnixSocketView::File(p) => p,
        UnixSocketView::Abstract(n) => n,
        UnixSocketView::Dir(p) => p,
        UnixSocketView::TmpDir(p) => p,
    }
}

/// How a socket reads in an address, if it can be written: its key and `=`, then its path or
/// name, escaped byte by byte where paths are bytes (Unix), or else written as the text it
/// is, which it must then be (valid UTF-8).
pub open spec fn socket_text(socket: UnixSocketView, byte_paths: bool) -> Option<Seq<char>> {
    if byte_paths {
        Some(socket_key(socket) + percent_encoded(socket_bytes(socket)))
    } else if valid_utf8(socket_bytes(socket)) {
        Some(socket_key(socket) + decode_utf8(socket_bytes(socket)))
    } else {
        None
    }
}

/// The view of an optional `String`.
pub open spec fn opt_string_view(s: Option<String>) -> Option<Seq<char>> {
    match s {
        Some(t) => Some(t@),
        None => None,
    }
}

fn exec_hex_digit(d: u8) -> (c: char)
    requires
        d < 16,
    ensures
        c == hex_digit(d as nat),
{
    if d < 10 {
        (48u8 + d) as char
    } else {
        (87u8 + d) as char
    }
}

/// Appends `bytes`, escaped as an address needs them, at the end of `s`.
fn push_percent_encoded(s: &mut String, bytes: &[u8])
    ensures
        final(s)@ == old(s)@ + percent_encoded(bytes@),
{
    let ghost start = s@;
    let mut i: usize = 0;
    while i < bytes.len()
        invariant
            i <= bytes@.len(),
            s@ == start + percent_encoded(bytes@.take(i as int)),
        decreases bytes@.len() - i,
    {
        let b = bytes[i];
        let alnum = (48 <= b && b <= 57) || (65 <= b && b <= 90) || (97 <= b && b <= 122);
        if alnum || b == 45 || b == 95 || b == 47 || b == 46 || b == 92 || b == 42 {
            push_char(s, b as char);
        } else {
            push_char(s, '%');
            push_char(s, exec_hex_digit(b / 16));
            push_char(s, exec_hex_digit(b % 16));
        }
        proof {
            assert(bytes@.take(i + 1).drop_last() =~= bytes@.take(i as int));
        }
        assert(s@ =~= start + percent_encoded(bytes@.take(i + 1)));
        i = i + 1;
    }
    assert(bytes@.take(bytes@.len() as int) =~= bytes@);
}

impl UnixSocket {
    /// The path or name held.
    fn bytes(&self) -> (b: &[u8])
        ensures
            b@ == socket_bytes(self@),
    {
        match self {
            UnixSocket::File(p) => p.as_slice(),
            UnixSocket::Abstract(n) => n.as_slice(),
            UnixSocket::Dir(p) => p.as_slice(),
            UnixSocket::TmpDir(p) => p.as_slice(),
        }
    }

    /// Appends the socket's key and `=` at the end of `s`.
    fn push_key(&self, s: &mut String)
        ensures
            final(s)@ == old(s)@ + socket_key(self@),
    {
        match self {
            UnixSocket::File(_) => push_str(s, "path="),
            UnixSocket::Abstract(_) => push_str(s, "abstract="),
            UnixSocket::Dir(_) => push_str(s, "dir="),
            UnixSocket::TmpDir(_) => push_str(s, "tmpdir="),
        }
    }

    /// Appends how the socket reads in an address at the end of `s`, e.g. `path=/tmp/dbus-foo`,
    /// on a platform whose paths are bytes (Unix) or not; `false` where it cannot be written.
    fn write_to(&self, s: &mut String, byte_paths: bool) -> (written: bool)
        ensures
            written == socket_text(self@, byte_paths) is Some,
            written ==> final(s)@ == old(s)@ + socket_text(self@, byte_paths).unwrap(),
            !written ==> final(s)@ == old(s)@,
    {
        let ghost start = s@;
        if byte_paths {
            self.push_key(s);
            push_percent_encoded(s, self.bytes());
            assert(s@ =~= start + socket_text(self@, byte_paths).unwrap());
            true
        } else {
            match str_from_utf8(self.bytes()) {
                Some(text) => {
                    proof {
                        encode_utf8_decode_utf8(text@);
                    }
                    self.push_key(s);
                    push_str(s, text);
                    assert(s@ =~= start + socket_text(self@, byte_paths).unwrap());
                    true
                },
                None => false,
            }
        }
    }

    /// How the socket reads in an address, e.g. `path=/tmp/dbus-foo`, on a platform whose
    /// paths are bytes (Unix: escaped as needed) or not (written as text, and nothing where a
    /// path is no text).
    pub fn to_string(&self, byte_paths: bool) -> (r: Option<String>)
        ensures
            opt_string_view(r) == socket_text(self@, byte_paths),
    {
        let mut s = String::new();
        if self.write_to(&mut s, byte_paths) {
            assert(s@ =~= socket_text(self@, byte_paths).unwrap());
            Some(s)
        } else {
            None
        }
    }
}

impl Unix {
    /// Create a new Unix transport with the given path.
    pub fn new(path: UnixSocket) -> (u: Self)
        ensures
            u@ == path@,
    {
        Self { path }
    }

    /// The path.
    pub fn path(&self) -> (p: &UnixSocket)
        ensures
            p@ == self@,
    {
        &self.path
    }

    /// Take the path, consuming `self`.
    pub fn take_path(self) -> (p: UnixSocket)
        ensures
            p@ == self@,
    {
        self.path
    }

    /// The transport that the options `path`, `abstract`, `dir` and `tmpdir` of a `unix:`
    /// address describe (each the value given for it, if given), on a platform that supports
    /// abstract sockets or not (Linux does). Exactly one of them must be given; otherwise the
    /// address is invalid. An abstract socket on a platform without them is refused.
    pub fn from_options(
        path: Option<&str>,
        abstract_name: Option<&str>,
        dir: Option<&str>,
        tmpdir: Option<&str>,
        abstract_supported: bool,
    ) -> (r: Result<Unix, TransportError>)
        ensures
            r is Ok <==> options_socket(
                opt_view(path),
                opt_view(abstract_name),
                opt_view(dir),
                opt_view(tmpdir),
                abstract_supported,
            ) is Some,
            r matches Ok(u) ==> Some(u@) == options_socket(
                opt_view(path),
                opt_view(abstract_name),
                opt_view(dir),
                opt_view(tmpdir),
                abstract_supported,
            ),
            r matches Err(e) ==> e matches TransportError::Address(m) && m@ == if path is None
                && abstract_name is Some && dir is None && tmpdir is None {
                "abstract sockets currently Linux-only"@
            } else {
                "unix: address is invalid"@
            },
    {
        let socket = match (path, abstract_name, dir, tmpdir) {
            (Some(p), None, None, None) => UnixSocket::File(
                vstd::slice::slice_to_vec(p.as_bytes()),
            ),
            (None, Some(p), None, None) => {
                if !abstract_supported {
                    return Err(
                        TransportError::Address("abstract sockets currently Linux-only".to_owned()),
                    );
                }
                UnixSocket::Abstract(vstd::slice::slice_to_vec(p.as_bytes()))
            },
            (None, None, Some(p), None) => UnixSocket::Dir(
                vstd::slice::slice_to_vec(p.as_bytes()),
            ),
            (None, None, None, Some(p)) => UnixSocket::TmpDir(
                vstd::slice::slice_to_vec(p.as_bytes()),
            ),
            _ => {
                return Err(TransportError::Address("unix: address is invalid".to_owned()));
            },
        };
        Ok(Self::new(socket))
    }

    /// The address to connect to, consuming `self`: the path of a file socket, or the name
    /// of an abstract socket preceded by a NUL byte. One cannot connect to a `dir` or
    /// `tmpdir` socket.
    pub fn take_addr(self) -> (r: Result<Vec<u8>, TransportError>)
        ensures
            r is Ok <==> connect_address(self@) is Some,
            r matches Ok(a) ==> Some(a@) == connect_address(self@),
            r matches Err(e) ==> e is Unsupported,
    {
        match self.take_path() {
            UnixSocket::File(path) => Ok(path),
            UnixSocket::Abstract(name) => {
                let mut v = name;
                v.insert(0, 0u8);
                assert(v@ =~= seq![0u8] + name@);
                Ok(v)
            },
            UnixSocket::Dir(_) | UnixSocket::TmpDir(_) => Err(TransportError::Unsupported),
        }
    }

    /// How the transport reads in an address, e.g. `unix:path=/tmp/dbus-foo`, on a platform
    /// whose paths are bytes or not (see `UnixSocket::to_string`).
    pub fn to_string(&self, byte_paths: bool) -> (r: Option<String>)
        ensures
            opt_string_view(r) == match socket_text(self@, byte_paths) {
                Some(t) => Some("unix:"@ + t),
                None => None,
            },
    {
        let mut s = "unix:".to_owned();
        if self.path.write_to(&mut s, byte_paths) {
            assert(s@ =~= "unix:"@ + socket_text(self@, byte_paths).unwrap());
            Some(s)
        } else {
            None
        }
    }
}

} // verus!
