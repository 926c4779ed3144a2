//! Building blocks of the macro catalog: fixed texts, and numbered blocks
//! written as a template whose `$` marks stand for the number.
use vstd::prelude::*;
use crate::text::{chars_of, decimal, push_decimal, split, split_lines, string_of, views};

verus! {

/// The template `t` with each `$` replaced by the decimal numeral of `n`.
pub open spec fn fill(t: Seq<char>, n: nat) -> Seq<char>
    decreases t.len(),
{
    if t.len() == 0 {
        Seq::empty()
    } else {
        (if t[0] == '$' { decimal(n) } else { seq![t[0]] }) + fill(t.skip(1), n)
    }
}

/// Returns the template `t` filled with the number `n`.
pub fn fill_template(t: &str, n: u64) -> (r: String)
    ensures
        r@ == fill(t@, n as nat),
{
    let cs = chars_of(t);
    let mut out: Vec<char> = Vec::new();
    let mut i: usize = 0;
    assert(cs@.skip(0) =~= cs@);
    assert(out@ + fill(cs@, n as nat) =~= fill(cs@, n as nat));
    while i < cs.len()
        invariant
            cs@ == t@,
            i <= cs@.len(),
            fill(t@, n as nat) == out@ + fill(cs@.skip(i as int), n as nat),
        decreases cs@.len() - i,
    {
        let ghost rest = cs@.skip(i as int);
        assert(rest.skip(1) =~= cs@.skip(i + 1));
        let ghost o = out@;
        if cs[i] == '$' {
            push_decimal(&mut out, n as u128);
        } else {
            out.push(cs[i]);
        }
        assert(out@ + fill(rest.skip(1), n as nat) =~= o + ((if rest[0] == '$' {
            decimal(n as nat)
        } else {
            seq![rest[0]]
        }) + fill(rest.skip(1), n as nat)));
        i = i + 1;
    }
    assert(cs@.skip(i as int) =~= Seq::<char>::empty());
    assert(out@ + Seq::<char>::empty() =~= out@);
    string_of(&out)
}

/// The lines of the template `t` filled with each number of
/// `lo..lo + count`, in order.
pub open spec fn numbered(t: Seq<char>, lo: nat, count: nat) -> Seq<Seq<char>>
    decreases count,
{
    if count == 0 {
        Seq::empty()
    } else {
        numbered(t, lo, (count - 1) as nat) + split(fill(t, (lo + count - 1) as nat), '\n')
    }
}

/// Appends the lines of the text `t` to `lines`.
pub fn push_text(lines: &mut Vec<String>, t: &str)
    ensures
        views(final(lines)@) == views(old(lines)@) + split(t@, '\n'),
{
    let ghost l0 = views(lines@);
    let mut new = split_lines(t);
    lines.append(&mut new);
    assert(views(lines@) =~= l0 + split(t@, '\n'));
}

/// Appends the lines of the template `t` filled with each number of
/// `lo..hi`, in order.
pub fn push_numbered(lines: &mut Vec<String>, t: &str, lo: u64, hi: u64)
    requires
        lo <= hi,
    ensures
        views(final(lines)@) == views(old(lines)@) + numbered(t@, lo as nat, (hi - lo) as nat),
{
    let ghost l0 = views(lines@);
    let mut n: u64 = lo;
    assert(l0 + numbered(t@, lo as nat, 0) =~= l0);
    while n < hi
        invariant
            lo <= n <= hi,
            views(lines@) == l0 + numbered(t@, lo as nat, (n - lo) as nat),
        decreases hi - n,
    {
        let filled = fill_template(t, n);
        let ghost l1 = views(lines@);
        push_text(lines, filled.as_str());
        assert(numbered(t@, lo as nat, (n + 1 - lo) as nat) == numbered(t@, lo as nat, (n - lo) as nat)
            + split(fill(t@, n as nat), '\n'));
        assert(views(lines@) =~= l0 + numbered(t@, lo as nat, (n + 1 - lo) as nat));
        n = n + 1;
    }
}

} // verus!
