//! Paths in the form that the host's command interpreter takes.
//!
//! Where the host separates path components with a backslash, some built-in
//! copy commands do not take a forward slash in their first argument, so every
//! forward slash becomes a backslash. Elsewhere a path stays as it is.

use vstd::prelude::*;
use crate::text::chars_of;

verus! {

/// One character of a path, in the form of a host that separates with a
/// backslash.
pub open spec fn backslashed(c: char) -> char {
    if c == '/' {
        '\\'
    } else {
        c
    }
}

/// The path in the host's form: on a host that separates with a backslash
/// every forward slash is replaced, on any other the path is unchanged.
pub open spec fn native_path(path: Seq<char>, backslash: bool) -> Seq<char> {
    if backslash {
        Seq::new(path.len(), |i: int| backslashed(path[i]))
    } else {
        path
    }
}

/// `std::path::MAIN_SEPARATOR`, the character with which the host separates
/// the components of a path. Nothing is claimed of it: it differs from host to
/// host.
#[verifier::external_body]
fn host_separator() -> (c: char) {
    std::path::MAIN_SEPARATOR
}

/// The path in the form of a host that separates with a backslash, or
/// unchanged.
pub fn path_with_separator(path: &str, backslash: bool) -> (r: String)
    ensures
        r@ == native_path(path@, backslash),
{
    let t: Vec<char> = chars_of(path);
    let n: usize = t.len();
    let mut out: String = String::new();
    let mut i: usize = 0;
    while i < n
        invariant
            n == t.len(),
            t@ == path@,
            i <= n,
            out@ == native_path(path@, backslash).take(i as int),
        decreases n - i,
    {
        let c: char = t[i];
        if backslash && c == '/' {
            out.push('\\');
        } else {
            out.push(c);
        }
        i += 1;
        assert(out@ =~= native_path(path@, backslash).take(i as int));
    }
    assert(out@ =~= native_path(path@, backslash));
    out
}

/// The path in the form of the host that this runs on.
///
/// Which form that is depends on the host alone; either way the path keeps its
/// length.
pub fn make_native_path(path: &str) -> (r: String)
    ensures
        r@ == native_path(path@, false) || r@ == native_path(path@, true),
        r@.len() == path@.len(),
{
    let backslash: bool = host_separator() == '\\';
    path_with_separator(path, backslash)
}

} // verus!
