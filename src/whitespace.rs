//! Whitespace condensing: trimming, collapsing runs, dropping blank lines.
use vstd::prelude::*;
use crate::text::{chars_of, string_of, views};

verus! {

/// `c` has the Unicode `White_Space` property, as `char::is_whitespace` tests.
pub open spec fn is_ws(c: char) -> bool {
    let u = c as u32;
    (0x9 <= u <= 0xd) || u == 0x20 || u == 0x85 || u == 0xa0 || u == 0x1680
        || (0x2000 <= u <= 0x200a) || u == 0x2028 || u == 0x2029 || u == 0x202f
        || u == 0x205f || u == 0x3000
}

/// Whether `c` is a whitespace character.
pub fn is_whitespace(c: char) -> (r: bool)
    ensures
        r == is_ws(c),
{
    let u = c as u32;
    (0x9 <= u && u <= 0xd) || u == 0x20 || u == 0x85 || u == 0xa0 || u == 0x1680
        || (0x2000 <= u && u <= 0x200a) || u == 0x2028 || u == 0x2029 || u == 0x202f
        || u == 0x205f || u == 0x3000
}

/// Condenses `s` read from the left, where `started` says that a word was
/// already written and `pending` that whitespace follows it: each word is
/// written once, preceded by a single space when a word came before it.
pub open spec fn condense_from(s: Seq<char>, started: bool, pending: bool) -> Seq<char>
    decreases s.len(),
{
    if s.len() == 0 {
        Seq::empty()
    } else if is_ws(s[0]) {
        condense_from(s.skip(1), started, started)
    } else {
        (if pending { seq![' '] } else { Seq::empty() }) + seq![s[0]] + condense_from(
            s.skip(1),
            true,
            false,
        )
    }
}

/// The words of `s` (its maximal runs of non-whitespace), joined by single
/// spaces: no leading or trailing whitespace.
pub open spec fn condense_spec(s: Seq<char>) -> Seq<char> {
    condense_from(s, false, false)
}

/// Returns `s` trimmed, with each inner run of whitespace replaced by a single
/// space. An all-whitespace `s` gives the empty string.
pub fn condense_line_whitespace(s: &str) -> (r: String)
    ensures
        r@ == condense_spec(s@),
{
    let cs = chars_of(s);
    let n = cs.len();
    let mut out: Vec<char> = Vec::new();
    let mut started = false;
    let mut pending = false;
    let mut i: usize = 0;
    assert(cs@.skip(0) =~= cs@);
    assert(out@ + condense_spec(cs@) =~= condense_spec(cs@));
    while i < n
        invariant
            n == cs@.len(),
            cs@ == s@,
            i <= n,
            condense_spec(s@) == out@ + condense_from(cs@.skip(i as int), started, pending),
        decreases n - i,
    {
        let ghost rest = cs@.skip(i as int);
        assert(rest.skip(1) =~= cs@.skip(i + 1));
        let c = cs[i];
        let ghost old_out = out@;
        if is_whitespace(c) {
            pending = started;
        } else {
            if pending {
                out.push(' ');
            }
            out.push(c);
            assert(out@ + condense_from(rest.skip(1), true, false) =~= old_out + ((if pending {
                seq![' ']
            } else {
                Seq::empty()
            }) + seq![c] + condense_from(rest.skip(1), true, false)));
            started = true;
            pending = false;
        }
        i = i + 1;
    }
    assert(cs@.skip(n as int) =~= Seq::<char>::empty());
    assert(out@ + Seq::<char>::empty() =~= out@);
    string_of(&out)
}

/// The condensed lines, with the lines that become empty left out.
pub open spec fn condense_lines_spec(ls: Seq<Seq<char>>) -> Seq<Seq<char>>
    decreases ls.len(),
{
    if ls.len() == 0 {
        Seq::empty()
    } else {
        let r = condense_lines_spec(ls.drop_last());
        let t = condense_spec(ls.last());
        if t.len() == 0 {
            r
        } else {
            r.push(t)
        }
    }
}

/// Condenses the whitespace of every line and drops the lines that become
/// empty.
pub fn condense_whitespace(lines: Vec<String>) -> (r: Vec<String>)
    ensures
        views(r@) == condense_lines_spec(views(lines@)),
{
    let ghost ls = views(lines@);
    let mut out: Vec<String> = Vec::new();
    let mut i: usize = 0;
    while i < lines.len()
        invariant
            ls == views(lines@),
            i <= lines@.len(),
            views(out@) == condense_lines_spec(ls.subrange(0, i as int)),
        decreases lines@.len() - i,
    {
        let t = condense_line_whitespace(lines[i].as_str());
        assert(ls.subrange(0, i + 1).drop_last() =~= ls.subrange(0, i as int));
        assert(ls.subrange(0, i + 1).last() == lines@[i as int]@);
        if !t.as_str().is_empty() {
            let ghost old_out = views(out@);
            out.push(t);
            assert(views(out@) =~= old_out.push(out@.last()@));
        } else {
            assert(t@.len() == 0);
        }
        i = i + 1;
    }
    assert(ls.subrange(0, i as int) =~= ls);
    out
}

/// Every space of a condensed text is followed by a character that is not
/// whitespace, no other whitespace occurs, and when `started` is false it
/// does not begin with a space.
pub open spec fn is_condensed(t: Seq<char>, started: bool) -> bool {
    &&& forall|i: int| 0 <= i < t.len() ==> t[i] == ' ' || !is_ws(t[i])
    &&& forall|i: int| 0 <= i < t.len() && #[trigger] t[i] == ' ' ==> i + 1 < t.len() && !is_ws(t[i + 1])
    &&& !started && t.len() > 0 ==> t[0] != ' '
}

proof fn lemma_condense_from_is_condensed(s: Seq<char>, started: bool, pending: bool)
    requires
        pending ==> started,
    ensures
        is_condensed(condense_from(s, started, pending), started),
    decreases s.len(),
{
    if s.len() == 0 {
    } else if is_ws(s[0]) {
        lemma_condense_from_is_condensed(s.skip(1), started, started);
    } else {
        let rest = condense_from(s.skip(1), true, false);
        lemma_condense_from_is_condensed(s.skip(1), true, false);
        let r = condense_from(s, started, pending);
        let k: int = if pending { 1 } else { 0 };
        assert(r =~= (if pending { seq![' '] } else { Seq::empty() }) + seq![s[0]] + rest);
        assert forall|i: int| 0 <= i < r.len() implies r[i] == ' ' || !is_ws(r[i]) by {
            if i > k {
                assert(r[i] == rest[i - k - 1]);
            }
        }
        assert forall|i: int| 0 <= i < r.len() && #[trigger] r[i] == ' ' implies i + 1 < r.len() && !is_ws(
            r[i + 1],
        ) by {
            if i > k {
                assert(r[i] == rest[i - k - 1]);
                assert(r[i + 1] == rest[i - k]);
            }
        }
    }
}

proof fn lemma_condensed_is_fixed(t: Seq<char>, started: bool)
    requires
        is_condensed(t, started),
    ensures
        condense_from(t, started, false) == t,
    decreases t.len(),
{
    if t.len() == 0 {
    } else if t[0] == ' ' {
        assert(is_ws(t[0]));
        let u = t.skip(2);
        assert(t.skip(1).skip(1) =~= u);
        assert(!is_ws(t[1]));
        assert(is_condensed(u, true)) by {
            assert forall|i: int| 0 <= i < u.len() && #[trigger] u[i] == ' ' implies i + 1 < u.len() && !is_ws(
                u[i + 1],
            ) by {
                assert(t[i + 2] == ' ');
            }
        }
        lemma_condensed_is_fixed(u, true);
        assert(started);
        assert(t.skip(1)[0] == t[1]);
        assert(condense_from(t.skip(1), true, true) == seq![' '] + seq![t[1]] + condense_from(
            u,
            true,
            false,
        ));
        assert(seq![' '] + seq![t[1]] + u =~= t);
    } else {
        let u = t.skip(1);
        assert(is_condensed(u, true)) by {
            assert forall|i: int| 0 <= i < u.len() && #[trigger] u[i] == ' ' implies i + 1 < u.len() && !is_ws(
                u[i + 1],
            ) by {
                assert(t[i + 1] == ' ');
            }
        }
        lemma_condensed_is_fixed(u, true);
        assert(Seq::<char>::empty() + seq![t[0]] + u =~= t);
    }
}

proof fn lemma_condense_all_whitespace(s: Seq<char>, started: bool, pending: bool)
    requires
        forall|i: int| 0 <= i < s.len() ==> is_ws(s[i]),
    ensures
        condense_from(s, started, pending).len() == 0,
    decreases s.len(),
{
    if s.len() > 0 {
        assert(is_ws(s[0]));
        lemma_condense_all_whitespace(s.skip(1), started, started);
    }
}

/// Condensing is idempotent: a condensed line condenses to itself. A line of
/// whitespace alone condenses to the empty line.
pub proof fn lemma_condense_idempotent(s: Seq<char>)
    ensures
        condense_spec(condense_spec(s)) == condense_spec(s),
        (forall|i: int| 0 <= i < s.len() ==> is_ws(s[i])) ==> condense_spec(s).len() == 0,
{
    lemma_condense_from_is_condensed(s, false, false);
    lemma_condensed_is_fixed(condense_spec(s), false);
    if forall|i: int| 0 <= i < s.len() ==> is_ws(s[i]) {
        lemma_condense_all_whitespace(s, false, false);
    }
}

} // verus!
