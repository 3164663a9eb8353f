//! The command templater: fills the placeholders of a restore command.
//!
//! A template is read once, from left to right. `%p` stands for the path of the
//! file to restore, `%f` for its name, `%r` for the name of the last restart
//! point, and `%%` for a plain percent sign. Values are copied as they are:
//! nothing that a value holds is read as a placeholder.

use vstd::prelude::*;
use vstd::string::StringExecFns;
use crate::path::{make_native_path, native_path};
use crate::text::chars_of;

verus! {

/// The letters that, behind a percent sign, name a value.
pub open spec fn is_placeholder_key(c: char) -> bool {
    c == 'p' || c == 'f' || c == 'r'
}

/// The placeholder `%key` stands at position `i` of the template.
pub open spec fn token_at(t: Seq<char>, i: int, key: char) -> bool {
    0 <= i && i + 1 < t.len() && t[i] == '%' && t[i + 1] == key
}

/// The template holds the placeholder `%key` somewhere.
pub open spec fn references(t: Seq<char>, key: char) -> bool {
    exists|i: int| token_at(t, i, key)
}

/// The value that the placeholder `%key` stands for.
pub open spec fn value_of(
    key: char,
    path: Seq<char>,
    fname: Seq<char>,
    rname: Seq<char>,
) -> Seq<char> {
    if key == 'p' {
        path
    } else if key == 'f' {
        fname
    } else {
        rname
    }
}

/// The template with every placeholder replaced by its value and every escaped
/// percent sign collapsed.
///
/// A percent sign followed by `p`, `f` or `r` is always a placeholder. Two
/// percent signs are an escape unless the second one starts a placeholder, in
/// which case the first is an ordinary character.
pub open spec fn expand(
    t: Seq<char>,
    path: Seq<char>,
    fname: Seq<char>,
    rname: Seq<char>,
) -> Seq<char>
    decreases t.len(),
{
    if t.len() == 0 {
        Seq::empty()
    } else if t.len() >= 2 && t[0] == '%' && is_placeholder_key(t[1]) {
        value_of(t[1], path, fname, rname) + expand(t.skip(2), path, fname, rname)
    } else if t.len() >= 2 && t[0] == '%' && t[1] == '%' && !(t.len() >= 3 && is_placeholder_key(
        t[2],
    )) {
        seq!['%'] + expand(t.skip(2), path, fname, rname)
    } else {
        seq![t[0]] + expand(t.skip(1), path, fname, rname)
    }
}

/// Some placeholder of the template has no value to stand for it.
pub open spec fn unsatisfiable(
    t: Seq<char>,
    path: Seq<char>,
    fname: Seq<char>,
    rname: Seq<char>,
) -> bool {
    ||| references(t, 'p') && path.len() == 0
    ||| references(t, 'f') && fname.len() == 0
    ||| references(t, 'r') && rname.len() == 0
}

/// What rendering yields: nothing where a referenced value is empty, else the
/// expanded template.
pub open spec fn rendered(
    t: Seq<char>,
    path: Seq<char>,
    fname: Seq<char>,
    rname: Seq<char>,
) -> Option<Seq<char>> {
    if unsatisfiable(t, path, fname, rname) {
        None
    } else {
        Some(expand(t, path, fname, rname))
    }
}

/// The characters of an optional string.
pub open spec fn text_of(r: Option<String>) -> Option<Seq<char>> {
    match r {
        Some(s) => Some(s@),
        None => None,
    }
}

/// Whether the template holds the placeholder `%key`.
pub fn template_references(t: &Vec<char>, key: char) -> (found: bool)
    ensures
        found == references(t@, key),
{
    let n: usize = t.len();
    let mut i: usize = 0;
    while i < n
        invariant
            n == t.len(),
            i <= n,
            forall|j: int| 0 <= j < i ==> !token_at(t@, j, key),
        decreases n - i,
    {
        if t[i] == '%' && i + 1 < n && t[i + 1] == key {
            assert(token_at(t@, i as int, key));
            return true;
        }
        i += 1;
    }
    false
}

/// Renders `template` with a path that is already in the host's form.
///
/// Returns `None` exactly when the template references a value that is empty.
pub fn render_restore_command(
    template: &str,
    native_path: &str,
    xlog_fname: &str,
    last_restart_point_fname: &str,
) -> (r: Option<String>)
    ensures
        text_of(r) == rendered(template@, native_path@, xlog_fname@, last_restart_point_fname@),
{
    let t: Vec<char> = chars_of(template);
    if template_references(&t, 'p') && native_path.is_empty() {
        return None;
    }
    if template_references(&t, 'f') && xlog_fname.is_empty() {
        return None;
    }
    if template_references(&t, 'r') && last_restart_point_fname.is_empty() {
        return None;
    }
    let ghost path = native_path@;
    let ghost fname = xlog_fname@;
    let ghost rname = last_restart_point_fname@;
    let n: usize = t.len();
    let mut out: String = String::new();
    let mut i: usize = 0;
    assert(t@.skip(0) =~= t@);
    assert(out@ + expand(t@, path, fname, rname) =~= expand(t@, path, fname, rname));
    while i < n
        invariant
            n == t.len(),
            i <= n,
            path == native_path@,
            fname == xlog_fname@,
            rname == last_restart_point_fname@,
            out@ + expand(t@.skip(i as int), path, fname, rname) == expand(t@, path, fname, rname),
        decreases n - i,
    {
        let ghost rest = t@.skip(i as int);
        let ghost before = out@;
        let c: char = t[i];
        if c == '%' && i + 1 < n {
            let d: char = t[i + 1];
            assert(rest.skip(2) =~= t@.skip(i + 2));
            assert(rest.skip(1) =~= t@.skip(i + 1));
            if d == 'p' {
                out.append(native_path);
                i += 2;
            } else if d == 'f' {
                out.append(xlog_fname);
                i += 2;
            } else if d == 'r' {
                out.append(last_restart_point_fname);
                i += 2;
            } else if d == '%' && !(i + 2 < n && is_key(t[i + 2])) {
                out.push('%');
                i += 2;
            } else {
                out.push(c);
                i += 1;
            }
        } else {
            assert(rest.skip(1) =~= t@.skip(i + 1));
            out.push(c);
            i += 1;
        }
        assert(out@ + expand(t@.skip(i as int), path, fname, rname) =~= before + expand(
            rest,
            path,
            fname,
            rname,
        ));
    }
    Some(out)
}

/// Whether `c` names a value when it follows a percent sign.
pub fn is_key(c: char) -> (b: bool)
    ensures
        b == is_placeholder_key(c),
{
    c == 'p' || c == 'f' || c == 'r'
}

/// Renders `restore_command` for one file to restore.
///
/// The path is first brought into the host's form, which changes no character
/// count, so whether a result is owed does not depend on the host. The result
/// itself is the rendering with the path in one of the two forms.
pub fn build_restore_command(
    restore_command: &str,
    xlog_path: &str,
    xlog_fname: &str,
    last_restart_point_fname: &str,
) -> (r: Option<String>)
    ensures
        r is None <==> unsatisfiable(
            restore_command@,
            xlog_path@,
            xlog_fname@,
            last_restart_point_fname@,
        ),
        text_of(r) == rendered(
            restore_command@,
            native_path(xlog_path@, false),
            xlog_fname@,
            last_restart_point_fname@,
        ) || text_of(r) == rendered(
            restore_command@,
            native_path(xlog_path@, true),
            xlog_fname@,
            last_restart_point_fname@,
        ),
{
    let native: String = make_native_path(xlog_path);
    render_restore_command(restore_command, native.as_str(), xlog_fname, last_restart_point_fname)
}

} // verus!
