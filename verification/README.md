# zbus_names

Verified validation of D-Bus names — well-known bus names, unique bus names, interface
(and error) names, member (method, signal and property) names — with errors that say which
rule a refused name breaks and where; and the Unix domain socket transport of D-Bus
addresses (`unix:path=…`, `abstract=…`, `dir=…`, `tmpdir=…`).

* `src/` is the library, verified with Verus. `rules.rs` holds the byte-level rules and
  the scanner shared by the dotted names; each name kind has its own module with its rules
  stated as a spec, its validator, and a name type that can only hold a valid name;
  `laws.rs` proves how the kinds relate; `unix.rs` is the transport.
* `app/` connects to Unix sockets and offers serde-serializable copies of the name types.
* `tests/` runs the library on concrete names and addresses.

## Scope

* The error type has no variant for errors of the D-Bus serialization layer (zvariant):
  this crate does not depend on it, so it neither wraps nor converts such errors.
* Where a refused name holds a character outside ASCII, the error reports that character
  (the one whose encoding begins at the reported byte); bytes that are not UTF-8 are
  reported one by one, each read as a character.
* Platform differences are passed in rather than compiled in: `Unix::from_options` takes
  whether abstract sockets are supported (Linux), and the `to_string` methods of the
  transport take whether paths are bytes to escape (Unix) or text to write as it is.
