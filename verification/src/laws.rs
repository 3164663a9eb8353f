//! What holds of every rendering, whatever the template and the values.

use vstd::prelude::*;
use crate::restore::{size_verdict, RestoreError, StatOutcome};
use crate::template::{
    expand, is_placeholder_key, references, rendered, token_at, unsatisfiable, value_of,
};

verus! {

/// The template references none of the three values.
pub open spec fn plain(t: Seq<char>) -> bool {
    !references(t, 'p') && !references(t, 'f') && !references(t, 'r')
}

/// The text with every pair of percent signs, taken from the left, replaced by
/// one.
pub open spec fn collapse_percent(t: Seq<char>) -> Seq<char>
    decreases t.len(),
{
    if t.len() == 0 {
        Seq::empty()
    } else if t.len() >= 2 && t[0] == '%' && t[1] == '%' {
        seq!['%'] + collapse_percent(t.skip(2))
    } else {
        seq![t[0]] + collapse_percent(t.skip(1))
    }
}

/// A placeholder of a suffix is a placeholder of the whole template.
proof fn lemma_plain_suffix(t: Seq<char>, k: int)
    requires
        plain(t),
        0 <= k <= t.len(),
    ensures
        plain(t.skip(k)),
{
    assert forall|i: int, key: char| token_at(t.skip(k), i, key) implies references(t, key) by {
        assert(token_at(t, i + k, key));
    }
}

/// On a template without placeholders, expanding is collapsing.
proof fn lemma_plain_expand(t: Seq<char>, path: Seq<char>, fname: Seq<char>, rname: Seq<char>)
    requires
        plain(t),
    ensures
        expand(t, path, fname, rname) == collapse_percent(t),
    decreases t.len(),
{
    if t.len() == 0 {
    } else {
        if t.len() >= 2 && t[0] == '%' {
            assert(is_placeholder_key(t[1]) ==> token_at(t, 0, t[1]));
            assert(t.len() >= 3 && t[1] == '%' && is_placeholder_key(t[2]) ==> token_at(
                t,
                1,
                t[2],
            ));
        }
        if t.len() >= 2 && t[0] == '%' && t[1] == '%' {
            lemma_plain_suffix(t, 2);
            lemma_plain_expand(t.skip(2), path, fname, rname);
        } else {
            lemma_plain_suffix(t, 1);
            lemma_plain_expand(t.skip(1), path, fname, rname);
        }
    }
}

/// A template that holds none of `%p`, `%f` and `%r` always renders, with
/// empty values as with any others, and the result is the template with each
/// `%%` collapsed to `%`.
pub proof fn lemma_plain_template_collapses(
    t: Seq<char>,
    path: Seq<char>,
    fname: Seq<char>,
    rname: Seq<char>,
)
    requires
        plain(t),
    ensures
        rendered(t, path, fname, rname) == Some(collapse_percent(t)),
        rendered(t, Seq::empty(), Seq::empty(), Seq::empty()) == Some(collapse_percent(t)),
{
    lemma_plain_expand(t, path, fname, rname);
    lemma_plain_expand(t, Seq::empty(), Seq::empty(), Seq::empty());
}

/// A template that holds `%p` does not render with an empty path, whatever the
/// other two values are.
pub proof fn lemma_missing_path_is_absent(t: Seq<char>, fname: Seq<char>, rname: Seq<char>)
    requires
        references(t, 'p'),
    ensures
        rendered(t, Seq::empty(), fname, rname) is None,
{
}

/// A template that holds the placeholder of an empty value does not render,
/// whatever the other values are; one that holds no placeholder of an empty
/// value does.
pub proof fn lemma_absent_iff_referenced_value_empty(
    t: Seq<char>,
    path: Seq<char>,
    fname: Seq<char>,
    rname: Seq<char>,
)
    ensures
        rendered(t, path, fname, rname) is None <==> exists|key: char|
            is_placeholder_key(key) && references(t, key) && #[trigger] value_of(
                key,
                path,
                fname,
                rname,
            ).len() == 0,
{
    if unsatisfiable(t, path, fname, rname) {
        if references(t, 'p') && path.len() == 0 {
            assert(value_of('p', path, fname, rname).len() == 0);
        } else if references(t, 'f') && fname.len() == 0 {
            assert(value_of('f', path, fname, rname).len() == 0);
        } else {
            assert(value_of('r', path, fname, rname).len() == 0);
        }
    }
}

/// A value is copied as it is: where a template starts with a placeholder, the
/// rendering starts with the whole value, whatever the value holds, and goes on
/// with the rendering of the rest of the template alone.
pub proof fn lemma_value_is_copied_verbatim(
    key: char,
    rest: Seq<char>,
    path: Seq<char>,
    fname: Seq<char>,
    rname: Seq<char>,
)
    requires
        is_placeholder_key(key),
    ensures
        expand(seq!['%', key] + rest, path, fname, rname) == value_of(key, path, fname, rname)
            + expand(rest, path, fname, rname),
        expand(seq!['%', key], path, fname, rname) == value_of(key, path, fname, rname),
{
    let t = seq!['%', key] + rest;
    assert(t.skip(2) =~= rest);
    let u = seq!['%', key];
    assert(u.skip(2) =~= Seq::<char>::empty());
    assert(expand(u.skip(2), path, fname, rname) =~= Seq::<char>::empty());
    assert(value_of(key, path, fname, rname) + Seq::<char>::empty() =~= value_of(
        key,
        path,
        fname,
        rname,
    ));
}

/// Two percent signs at the start of a template render as one, unless the
/// second of them starts a placeholder.
pub proof fn lemma_escaped_percent_collapses(
    rest: Seq<char>,
    path: Seq<char>,
    fname: Seq<char>,
    rname: Seq<char>,
)
    requires
        rest.len() == 0 || !is_placeholder_key(rest[0]),
    ensures
        expand(seq!['%', '%'] + rest, path, fname, rname) == seq!['%'] + expand(
            rest,
            path,
            fname,
            rname,
        ),
{
    let t = seq!['%', '%'] + rest;
    assert(t.skip(2) =~= rest);
    assert(t.len() >= 3 ==> t[2] == rest[0]);
}

/// An escaped percent sign collapses to one also where it touches a
/// placeholder, before it or behind it.
pub proof fn lemma_escape_beside_placeholder(
    key: char,
    rest: Seq<char>,
    path: Seq<char>,
    fname: Seq<char>,
    rname: Seq<char>,
)
    requires
        is_placeholder_key(key),
    ensures
        expand(seq!['%', '%', '%', key] + rest, path, fname, rname) == seq!['%'] + value_of(
            key,
            path,
            fname,
            rname,
        ) + expand(rest, path, fname, rname),
        rest.len() == 0 || !is_placeholder_key(rest[0]) ==> expand(
            seq!['%', key, '%', '%'] + rest,
            path,
            fname,
            rname,
        ) == value_of(key, path, fname, rname) + seq!['%'] + expand(rest, path, fname, rname),
{
    let t = seq!['%', '%', '%', key] + rest;
    assert(t =~= seq!['%', '%'] + (seq!['%', key] + rest));
    lemma_escaped_percent_collapses(seq!['%', key] + rest, path, fname, rname);
    lemma_value_is_copied_verbatim(key, rest, path, fname, rname);
    assert(seq!['%'] + (value_of(key, path, fname, rname) + expand(rest, path, fname, rname))
        =~= seq!['%'] + value_of(key, path, fname, rname) + expand(rest, path, fname, rname));
    if rest.len() == 0 || !is_placeholder_key(rest[0]) {
        let u = seq!['%', key, '%', '%'] + rest;
        assert(u =~= seq!['%', key] + (seq!['%', '%'] + rest));
        lemma_value_is_copied_verbatim(key, seq!['%', '%'] + rest, path, fname, rname);
        lemma_escaped_percent_collapses(rest, path, fname, rname);
        assert(value_of(key, path, fname, rname) + (seq!['%'] + expand(rest, path, fname, rname))
            =~= value_of(key, path, fname, rname) + seq!['%'] + expand(
            rest,
            path,
            fname,
            rname,
        ));
    }
}

/// How many characters of a non-empty template the first reading step takes:
/// two for a placeholder or an escaped percent sign, else one.
pub open spec fn first_step(t: Seq<char>) -> int {
    if t.len() >= 2 && t[0] == '%' && (is_placeholder_key(t[1]) || (t[1] == '%' && !(t.len() >= 3
        && is_placeholder_key(t[2])))) {
        2
    } else {
        1
    }
}

/// Reading the template from the left, some step starts at position `k` (or
/// the reading ends there).
pub open spec fn step_starts_at(t: Seq<char>, k: int) -> bool
    decreases t.len(),
{
    if k == 0 {
        true
    } else if t.len() == 0 || k < first_step(t) {
        false
    } else {
        step_starts_at(t.skip(first_step(t)), k - first_step(t))
    }
}

/// Where a step starts, the template falls into two parts that render
/// independently: what stands before has no influence on what stands behind.
pub proof fn lemma_rendering_splits_at_step(
    t: Seq<char>,
    k: int,
    path: Seq<char>,
    fname: Seq<char>,
    rname: Seq<char>,
)
    requires
        step_starts_at(t, k),
    ensures
        0 <= k <= t.len(),
        expand(t, path, fname, rname) == expand(t.take(k), path, fname, rname) + expand(
            t.skip(k),
            path,
            fname,
            rname,
        ),
    decreases t.len(),
{
    if k == 0 {
        assert(t.take(0) =~= Seq::<char>::empty());
        assert(t.skip(0) =~= t);
        assert(Seq::<char>::empty() + expand(t, path, fname, rname) =~= expand(
            t,
            path,
            fname,
            rname,
        ));
    } else {
        let s = first_step(t);
        let rest = t.skip(s);
        let head = t.take(k);
        lemma_rendering_splits_at_step(rest, k - s, path, fname, rname);
        assert(rest.skip(k - s) =~= t.skip(k));
        assert(head.skip(s) =~= rest.take(k - s));
        if s == 1 && t.len() >= 3 && t[0] == '%' && t[1] == '%' {
            // The second percent sign starts a placeholder, so no step starts
            // between its two characters.
            assert(first_step(rest) == 2);
            assert(step_starts_at(rest, k - s));
            assert(k - s == 0 || k - s >= 2);
        }
        assert(first_step(head) == s);
        let piece = if s == 2 && is_placeholder_key(t[1]) {
            value_of(t[1], path, fname, rname)
        } else {
            seq![t[0]]
        };
        assert(expand(t, path, fname, rname) == piece + expand(rest, path, fname, rname));
        assert(expand(head, path, fname, rname) == piece + expand(
            head.skip(s),
            path,
            fname,
            rname,
        ));
        assert(piece + (expand(rest.take(k - s), path, fname, rname) + expand(
            rest.skip(k - s),
            path,
            fname,
            rname,
        )) =~= (piece + expand(rest.take(k - s), path, fname, rname)) + expand(
            rest.skip(k - s),
            path,
            fname,
            rname,
        ));
    }
}

/// A step starts at every placeholder: no reading of what stands before can
/// take one of its two characters away.
pub proof fn lemma_step_starts_at_placeholder(t: Seq<char>, k: int, key: char)
    requires
        is_placeholder_key(key),
        token_at(t, k, key),
    ensures
        step_starts_at(t, k),
    decreases t.len(),
{
    if k > 0 {
        let s = first_step(t);
        assert(s <= k);
        assert(token_at(t.skip(s), k - s, key));
        lemma_step_starts_at_placeholder(t.skip(s), k - s, key);
    }
}

/// Every placeholder of a template is replaced, wherever it stands, and by its
/// value as it is: the rendering is that of the text before it, then the value,
/// then that of the text behind it. Neither of the two depends on what the
/// value holds at this place, so a value is never read as a placeholder.
pub proof fn lemma_every_placeholder_is_replaced(
    t: Seq<char>,
    k: int,
    key: char,
    path: Seq<char>,
    fname: Seq<char>,
    rname: Seq<char>,
)
    requires
        is_placeholder_key(key),
        token_at(t, k, key),
    ensures
        expand(t, path, fname, rname) == expand(t.take(k), path, fname, rname) + value_of(
            key,
            path,
            fname,
            rname,
        ) + expand(t.skip(k + 2), path, fname, rname),
{
    lemma_step_starts_at_placeholder(t, k, key);
    lemma_rendering_splits_at_step(t, k, path, fname, rname);
    let rest = t.skip(k);
    assert(rest.skip(2) =~= t.skip(k + 2));
    assert(rest[0] == '%' && rest[1] == key);
    assert(expand(t.take(k), path, fname, rname) + (value_of(key, path, fname, rname) + expand(
        t.skip(k + 2),
        path,
        fname,
        rname,
    )) =~= expand(t.take(k), path, fname, rname) + value_of(key, path, fname, rname) + expand(
        t.skip(k + 2),
        path,
        fname,
        rname,
    ));
}

/// Placeholders come first and escapes last: the text before a placeholder,
/// where it holds no placeholder itself, is collapsed as a whole, whatever
/// stands behind it.
pub proof fn lemma_text_before_placeholder_collapses(
    t: Seq<char>,
    k: int,
    key: char,
    path: Seq<char>,
    fname: Seq<char>,
    rname: Seq<char>,
)
    requires
        is_placeholder_key(key),
        token_at(t, k, key),
        plain(t.take(k)),
    ensures
        expand(t, path, fname, rname) == collapse_percent(t.take(k)) + value_of(
            key,
            path,
            fname,
            rname,
        ) + expand(t.skip(k + 2), path, fname, rname),
{
    lemma_every_placeholder_is_replaced(t, k, key, path, fname, rname);
    lemma_plain_expand(t.take(k), path, fname, rname);
}

/// Two percent signs where a step starts render as one percent sign, unless
/// the second of them starts a placeholder.
pub proof fn lemma_escape_collapses_at_step(
    t: Seq<char>,
    k: int,
    path: Seq<char>,
    fname: Seq<char>,
    rname: Seq<char>,
)
    requires
        step_starts_at(t, k),
        0 <= k && k + 1 < t.len(),
        t[k] == '%' && t[k + 1] == '%',
        !(k + 2 < t.len() && is_placeholder_key(t[k + 2])),
    ensures
        expand(t, path, fname, rname) == expand(t.take(k), path, fname, rname) + seq!['%']
            + expand(t.skip(k + 2), path, fname, rname),
{
    lemma_rendering_splits_at_step(t, k, path, fname, rname);
    let rest = t.skip(k);
    assert(rest.skip(2) =~= t.skip(k + 2));
    assert(rest[0] == '%' && rest[1] == '%');
    assert(rest.len() >= 3 ==> rest[2] == t[k + 2]);
    assert(expand(t.take(k), path, fname, rname) + (seq!['%'] + expand(
        t.skip(k + 2),
        path,
        fname,
        rname,
    )) =~= expand(t.take(k), path, fname, rname) + seq!['%'] + expand(
        t.skip(k + 2),
        path,
        fname,
        rname,
    ));
}

/// Two percent signs right behind a placeholder render as one percent sign
/// right behind the value, unless the second of them starts a placeholder.
pub proof fn lemma_escape_behind_placeholder(
    t: Seq<char>,
    k: int,
    key: char,
    path: Seq<char>,
    fname: Seq<char>,
    rname: Seq<char>,
)
    requires
        is_placeholder_key(key),
        token_at(t, k, key),
        k + 3 < t.len(),
        t[k + 2] == '%' && t[k + 3] == '%',
        !(k + 4 < t.len() && is_placeholder_key(t[k + 4])),
    ensures
        expand(t, path, fname, rname) == expand(t.take(k), path, fname, rname) + value_of(
            key,
            path,
            fname,
            rname,
        ) + seq!['%'] + expand(t.skip(k + 4), path, fname, rname),
{
    lemma_every_placeholder_is_replaced(t, k, key, path, fname, rname);
    let rest = t.skip(k + 2);
    assert(rest.skip(2) =~= t.skip(k + 4));
    assert(rest[0] == '%' && rest[1] == '%');
    assert(rest.len() >= 3 ==> rest[2] == t[k + 4]);
    let before = expand(t.take(k), path, fname, rname) + value_of(key, path, fname, rname);
    assert(before + (seq!['%'] + expand(t.skip(k + 4), path, fname, rname)) =~= before
        + seq!['%'] + expand(t.skip(k + 4), path, fname, rname));
}

/// Only a file of exactly the expected size passes: one byte less fails, and
/// so does one byte more.
pub proof fn lemma_only_exact_size_passes(actual: u64, expected: u64)
    ensures
        size_verdict(StatOutcome::Size(actual), expected) is Ok <==> actual == expected,
        actual != expected ==> size_verdict(StatOutcome::Size(actual), expected) == Err::<
            (),
            RestoreError,
        >((RestoreError::SizeMismatch { actual, expected })),
{
}

/// No attempt can be planned on a template that references the restart point:
/// that value is never bound.
pub proof fn lemma_restart_point_is_never_bound(t: Seq<char>, path: Seq<char>, fname: Seq<char>)
    requires
        references(t, 'r'),
    ensures
        rendered(t, path, fname, Seq::empty()) is None,
{
}

} // verus!
