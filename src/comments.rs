//! Removal of `/* ... */` block comments, which may nest and may span lines.
use vstd::prelude::*;
use crate::text::{chars_of, string_of, views};

verus! {

/// An open delimiter `/*` starts at index `i` of `s`.
pub open spec fn opens_at(s: Seq<char>, i: int) -> bool {
    0 <= i && i + 1 < s.len() && s[i] == '/' && s[i + 1] == '*'
}

/// A close delimiter `*/` starts at index `i` of `s`.
pub open spec fn closes_at(s: Seq<char>, i: int) -> bool {
    0 <= i && i + 1 < s.len() && s[i] == '*' && s[i + 1] == '/'
}

/// The text of `s` that lies outside comments, when `s` starts at nesting
/// depth `d`, and the depth at the end of `s`.
///
/// The text is read from the left: an open delimiter enters one level deeper;
/// a close delimiter leaves one level, or is kept as text when no comment is
/// open; any other character is kept exactly when no comment is open.
pub open spec fn strip_spec(s: Seq<char>, d: nat) -> (Seq<char>, nat)
    decreases s.len(),
{
    if s.len() == 0 {
        (Seq::empty(), d)
    } else if opens_at(s, 0) {
        strip_spec(s.skip(2), d + 1)
    } else if closes_at(s, 0) {
        if d > 0 {
            strip_spec(s.skip(2), (d - 1) as nat)
        } else {
            let r = strip_spec(s.skip(2), 0);
            (seq!['*', '/'] + r.0, r.1)
        }
    } else {
        let r = strip_spec(s.skip(1), d);
        (if d == 0 { seq![s[0]] + r.0 } else { r.0 }, r.1)
    }
}

/// The depth never grows by more than the length of the text.
pub proof fn lemma_strip_depth_bound(s: Seq<char>, d: nat)
    ensures
        strip_spec(s, d).1 <= d + s.len(),
    decreases s.len(),
{
    if s.len() == 0 {
    } else if opens_at(s, 0) {
        lemma_strip_depth_bound(s.skip(2), d + 1);
    } else if closes_at(s, 0) {
        if d > 0 {
            lemma_strip_depth_bound(s.skip(2), (d - 1) as nat);
        } else {
            lemma_strip_depth_bound(s.skip(2), 0);
        }
    } else {
        lemma_strip_depth_bound(s.skip(1), d);
    }
}

/// Strips comments from the line `s`, which starts at comment depth `depth`.
/// Returns the text outside comments and the depth at the end of the line.
/// A close delimiter with no comment open is kept as text.
pub fn strip_line_comments(s: &str, depth: u32) -> (r: (String, u32))
    requires
        depth + s@.len() <= u32::MAX,
    ensures
        r.0@ == strip_spec(s@, depth as nat).0,
        r.1 as nat == strip_spec(s@, depth as nat).1,
{
    let cs = chars_of(s);
    let n = cs.len();
    let mut out: Vec<char> = Vec::new();
    let mut d: u32 = depth;
    let mut i: usize = 0;
    assert(cs@.skip(0) =~= cs@);
    assert(out@ + strip_spec(cs@, depth as nat).0 =~= strip_spec(cs@, depth as nat).0);
    while i < n
        invariant
            n == cs@.len(),
            cs@ == s@,
            i <= n,
            d + (n - i) <= depth + n,
            depth + n <= u32::MAX,
            strip_spec(s@, depth as nat) == (
                out@ + strip_spec(cs@.skip(i as int), d as nat).0,
                strip_spec(cs@.skip(i as int), d as nat).1,
            ),
        decreases n - i,
    {
        let ghost rest = cs@.skip(i as int);
        if i + 1 < n && cs[i] == '/' && cs[i + 1] == '*' {
            assert(opens_at(rest, 0));
            assert(rest.skip(2) =~= cs@.skip(i + 2));
            d = d + 1;
            i = i + 2;
        } else if i + 1 < n && cs[i] == '*' && cs[i + 1] == '/' {
            assert(!opens_at(rest, 0) && closes_at(rest, 0));
            assert(rest.skip(2) =~= cs@.skip(i + 2));
            if d > 0 {
                d = d - 1;
            } else {
                let ghost old_out = out@;
                out.push('*');
                out.push('/');
                assert(out@ + strip_spec(rest.skip(2), 0).0
                    =~= old_out + (seq!['*', '/'] + strip_spec(rest.skip(2), 0).0));
            }
            i = i + 2;
        } else {
            assert(!opens_at(rest, 0) && !closes_at(rest, 0));
            assert(rest.skip(1) =~= cs@.skip(i + 1));
            if d == 0 {
                let ghost old_out = out@;
                out.push(cs[i]);
                assert(out@ + strip_spec(rest.skip(1), 0).0
                    =~= old_out + (seq![rest[0]] + strip_spec(rest.skip(1), 0).0));
            }
            i = i + 1;
        }
    }
    assert(cs@.skip(n as int) =~= Seq::<char>::empty());
    assert(out@ + Seq::<char>::empty() =~= out@);
    (string_of(&out), d)
}

/// The comment-free text of each line, with the depth carried from one line
/// into the next, starting at depth `d`.
pub open spec fn strip_lines_spec(ls: Seq<Seq<char>>, d: nat) -> Seq<Seq<char>>
    decreases ls.len(),
{
    if ls.len() == 0 {
        Seq::empty()
    } else {
        let r = strip_spec(ls[0], d);
        seq![r.0] + strip_lines_spec(ls.skip(1), r.1)
    }
}

/// The number of characters over all lines.
pub open spec fn total_len(ls: Seq<Seq<char>>) -> nat
    decreases ls.len(),
{
    if ls.len() == 0 {
        0
    } else {
        ls[0].len() + total_len(ls.skip(1))
    }
}

/// Strips comments from every line, carrying the comment depth from each line
/// into the next, starting outside any comment.
pub fn strip_comments(lines: Vec<String>) -> (r: Vec<String>)
    requires
        total_len(views(lines@)) <= u32::MAX,
    ensures
        views(r@) == strip_lines_spec(views(lines@), 0),
{
    let ghost ls = views(lines@);
    let mut out: Vec<String> = Vec::new();
    let mut d: u32 = 0;
    let mut i: usize = 0;
    assert(ls.skip(0) =~= ls);
    assert(views(out@) + strip_lines_spec(ls, 0) =~= strip_lines_spec(ls, 0));
    while i < lines.len()
        invariant
            ls == views(lines@),
            i <= lines@.len(),
            d + total_len(ls.skip(i as int)) <= total_len(ls),
            total_len(ls) <= u32::MAX,
            strip_lines_spec(ls, 0) == views(out@) + strip_lines_spec(ls.skip(i as int), d as nat),
        decreases lines@.len() - i,
    {
        let ghost rest = ls.skip(i as int);
        assert(rest.skip(1) =~= ls.skip(i + 1));
        assert(rest[0] == lines@[i as int]@);
        proof {
            lemma_strip_depth_bound(rest[0], d as nat);
        }
        let (t, e) = strip_line_comments(lines[i].as_str(), d);
        let ghost old_out = views(out@);
        out.push(t);
        assert(views(out@) =~= old_out.push(t@));
        assert(views(out@) + strip_lines_spec(rest.skip(1), e as nat)
            =~= old_out + (seq![t@] + strip_lines_spec(rest.skip(1), e as nat)));
        d = e;
        i = i + 1;
    }
    assert(ls.skip(i as int) =~= Seq::<Seq<char>>::empty());
    assert(views(out@) + Seq::<Seq<char>>::empty() =~= views(out@));
    out
}

/// No delimiter starts inside `t` when `t` is followed by `next`.
pub open spec fn plain_before(t: Seq<char>, next: char) -> bool {
    forall|i: int| 0 <= i < t.len() ==> !opens_at(t.push(next), i) && !closes_at(t.push(next), i)
}

/// Text in which no delimiter starts is kept whole outside comments and
/// dropped inside them, and the depth does not change across it.
pub proof fn lemma_strip_plain_prefix(t: Seq<char>, r: Seq<char>, d: nat)
    requires
        forall|i: int| 0 <= i < t.len() ==> !opens_at(t + r, i) && !closes_at(t + r, i),
    ensures
        strip_spec(t + r, d) == (
            (if d == 0 { t } else { Seq::empty() }) + strip_spec(r, d).0,
            strip_spec(r, d).1,
        ),
    decreases t.len(),
{
    if t.len() == 0 {
        assert(t + r =~= r);
        assert(Seq::<char>::empty() + strip_spec(r, d).0 =~= strip_spec(r, d).0);
    } else {
        let s = t + r;
        assert(!opens_at(s, 0) && !closes_at(s, 0));
        assert(s.skip(1) =~= t.skip(1) + r);
        assert forall|i: int| 0 <= i < t.skip(1).len() implies !opens_at(t.skip(1) + r, i)
            && !closes_at(t.skip(1) + r, i) by {
            assert(!opens_at(s, i + 1) && !closes_at(s, i + 1));
        }
        lemma_strip_plain_prefix(t.skip(1), r, d);
        if d == 0 {
            assert(seq![s[0]] + (t.skip(1) + strip_spec(r, d).0) =~= t + strip_spec(r, d).0);
        } else {
            assert(Seq::<char>::empty() + strip_spec(r, d).0 =~= strip_spec(r, d).0);
        }
    }
}

/// A line in which no delimiter occurs is returned unchanged at depth zero,
/// becomes empty inside a comment, and leaves the depth as it was.
pub proof fn lemma_strip_without_delimiters(s: Seq<char>, d: nat)
    requires
        forall|i: int| !opens_at(s, i) && !closes_at(s, i),
    ensures
        strip_spec(s, d) == (if d == 0 { s } else { Seq::<char>::empty() }, d),
{
    assert(s + Seq::<char>::empty() =~= s);
    lemma_strip_plain_prefix(s, Seq::empty(), d);
    assert(s + Seq::<char>::empty() =~= s);
    if d == 0 {
        assert(s + Seq::<char>::empty() =~= s);
    } else {
        assert(Seq::<char>::empty() + Seq::<char>::empty() =~= Seq::<char>::empty());
    }
}

/// Outside any comment, a comment `/* c */` between text `a` and the rest `b`
/// is removed with its delimiters, and `a` is kept byte for byte. Applied once
/// per pair, this removes every balanced, unnested comment and nothing else.
pub proof fn lemma_strip_one_comment(a: Seq<char>, c: Seq<char>, b: Seq<char>)
    requires
        plain_before(a, '/'),
        plain_before(c, '*'),
    ensures
        strip_spec(a + seq!['/', '*'] + c + seq!['*', '/'] + b, 0) == (
            a + strip_spec(b, 0).0,
            strip_spec(b, 0).1,
        ),
{
    let tail = seq!['*', '/'] + b;
    let inner = seq!['/', '*'] + c + tail;
    let s = a + seq!['/', '*'] + c + seq!['*', '/'] + b;
    assert(s =~= a + inner);
    assert forall|i: int| 0 <= i < a.len() implies !opens_at(a + inner, i) && !closes_at(a + inner, i) by {
        assert(!opens_at(a.push('/'), i) && !closes_at(a.push('/'), i));
    }
    lemma_strip_plain_prefix(a, inner, 0);
    assert(opens_at(inner, 0));
    assert(inner.skip(2) =~= c + tail);
    assert forall|i: int| 0 <= i < c.len() implies !opens_at(c + tail, i) && !closes_at(c + tail, i) by {
        assert(!opens_at(c.push('*'), i) && !closes_at(c.push('*'), i));
    }
    lemma_strip_plain_prefix(c, tail, 1);
    assert(closes_at(tail, 0) && !opens_at(tail, 0));
    assert(tail.skip(2) =~= b);
    assert(Seq::<char>::empty() + strip_spec(tail, 1).0 =~= strip_spec(tail, 1).0);
}

} // verus!
