//! The whole preprocessing of a script: the header, the passes in their
//! order, and the output text.
use vstd::prelude::*;
use crate::actor_areas::{substitute_actor_area_names, substitute_spec};
use crate::comments::{strip_comments, strip_lines_spec, total_len};
use crate::error::PreprocessError;
use crate::macros::{insert_from, insert_macros};
use crate::objects::{assign_objects, objects_from};
use crate::random::{extract_rnd, extract_rnd_spec};
use crate::repeat::{repeat_from, repeat_lines};
use crate::text::{
    chars_of, contains, contains_chars, join, join_lines, string_of_range, to_uppercase,
    upper_of, views,
};
use crate::whitespace::{condense_lines_spec, condense_whitespace, is_whitespace, is_ws};

verus! {

/// The line that opens the header block.
pub const HEADER_START: &'static str = "#HEADER_START";

/// The line that closes the header block.
pub const HEADER_END: &'static str = "#HEADER_END";

/// The text that cuts the output short at the line that holds it.
pub const BREAK: &'static str = "#BREAK";

/// `s` without the whitespace at its start.
pub open spec fn trim_start(s: Seq<char>) -> Seq<char>
    decreases s.len(),
{
    if s.len() > 0 && is_ws(s[0]) {
        trim_start(s.skip(1))
    } else {
        s
    }
}

/// `s` without the whitespace at its end.
pub open spec fn trim_end(s: Seq<char>) -> Seq<char>
    decreases s.len(),
{
    if s.len() > 0 && is_ws(s.last()) {
        trim_end(s.drop_last())
    } else {
        s
    }
}

/// `s` without the whitespace at either end, as `str::trim` gives it.
pub open spec fn trim_spec(s: Seq<char>) -> Seq<char> {
    trim_end(trim_start(s))
}

proof fn lemma_trim_start(s: Seq<char>, i: int)
    requires
        0 <= i <= s.len(),
        forall|j: int| 0 <= j < i ==> is_ws(s[j]),
        i < s.len() ==> !is_ws(s[i]),
    ensures
        trim_start(s) == s.skip(i),
    decreases i,
{
    if i > 0 {
        assert(s.skip(1).skip(i - 1) =~= s.skip(i));
        lemma_trim_start(s.skip(1), i - 1);
    } else {
        assert(s.skip(0) =~= s);
    }
}

proof fn lemma_trim_end(s: Seq<char>, i: int)
    requires
        0 <= i <= s.len(),
        forall|j: int| i <= j < s.len() ==> is_ws(s[j]),
        i > 0 ==> !is_ws(s[i - 1]),
    ensures
        trim_end(s) == s.subrange(0, i),
    decreases s.len() - i,
{
    if i < s.len() {
        assert(s.drop_last().subrange(0, i) =~= s.subrange(0, i));
        lemma_trim_end(s.drop_last(), i);
    } else {
        assert(s.subrange(0, i) =~= s);
    }
}

/// Returns `s` without the whitespace at either end.
pub fn trim(s: &str) -> (r: String)
    ensures
        r@ == trim_spec(s@),
{
    let cs = chars_of(s);
    let n = cs.len();
    let mut lo: usize = 0;
    while lo < n && is_whitespace(cs[lo])
        invariant
            n == cs@.len(),
            lo <= n,
            forall|j: int| 0 <= j < lo ==> is_ws(cs@[j]),
        decreases n - lo,
    {
        lo = lo + 1;
    }
    proof {
        lemma_trim_start(cs@, lo as int);
    }
    let mut hi: usize = n;
    while hi > lo && is_whitespace(cs[hi - 1])
        invariant
            n == cs@.len(),
            lo <= hi <= n,
            forall|j: int| hi <= j < n ==> is_ws(cs@[j]),
        decreases hi,
    {
        hi = hi - 1;
    }
    let ghost t = cs@.skip(lo as int);
    proof {
        assert forall|j: int| hi - lo <= j < t.len() implies is_ws(t[j]) by {
            assert(t[j] == cs@[lo + j]);
        }
        if hi > lo {
            assert(t[hi - lo - 1] == cs@[hi - 1]);
        }
        lemma_trim_end(t, hi - lo);
        assert(t.subrange(0, hi - lo) =~= cs@.subrange(lo as int, hi as int));
    }
    string_of_range(&cs, lo, hi)
}

/// `l` is the marker `m` when trimmed and put in upper case.
pub open spec fn is_marker(l: Seq<char>, m: Seq<char>) -> bool {
    upper_of(trim_spec(l)) == m
}

/// Whether `line` is the marker `m` when trimmed and put in upper case.
fn marks(line: &String, m: &str) -> (r: bool)
    ensures
        r == is_marker(line@, m@),
{
    let t = trim(line.as_str());
    let u = to_uppercase(t.as_str());
    u == String::from_str(m)
}

/// The index of the first header end marker at or after `k`, or -1.
pub open spec fn header_end_from(ls: Seq<Seq<char>>, k: int) -> int
    decreases ls.len() - k,
{
    if k < 0 || k >= ls.len() {
        -1
    } else if is_marker(ls[k], HEADER_END@) {
        k
    } else {
        header_end_from(ls, k + 1)
    }
}

/// The header block and the rest of the script: where the first line is
/// the start marker, the lines up to the end marker and the lines after it;
/// else no header and all of the script.
pub open spec fn header_spec(ls: Seq<Seq<char>>) -> Result<
    (Seq<Seq<char>>, Seq<Seq<char>>),
    PreprocessError,
> {
    if ls.len() == 0 || !is_marker(ls[0], HEADER_START@) {
        Ok((Seq::empty(), ls))
    } else {
        let k = header_end_from(ls, 1);
        if k < 0 {
            Err(PreprocessError::HeaderNeverEnds)
        } else {
            Ok((ls.subrange(1, k), ls.skip(k + 1)))
        }
    }
}

/// Splits `lines` into the header block and the rest of the script.
pub fn collect_header_comment(lines: Vec<String>) -> (r: Result<
    (Vec<String>, Vec<String>),
    PreprocessError,
>)
    ensures
        r matches Ok(p) ==> header_spec(views(lines@)) == Ok::<
            (Seq<Seq<char>>, Seq<Seq<char>>),
            PreprocessError,
        >((views(p.0@), views(p.1@))),
        r matches Err(e) ==> header_spec(views(lines@)) == Err::<
            (Seq<Seq<char>>, Seq<Seq<char>>),
            PreprocessError,
        >(e),
{
    let ghost ls = views(lines@);
    if lines.len() == 0 || !marks(&lines[0], HEADER_START) {
        assert(lines.len() > 0 ==> ls[0] == lines@[0]@);
        let none: Vec<String> = Vec::new();
        assert(views(none@) =~= Seq::<Seq<char>>::empty());
        return Ok((none, lines));
    }
    assert(ls[0] == lines@[0]@);
    let n = lines.len();
    let mut header: Vec<String> = Vec::new();
    let mut i: usize = 1;
    assert(views(header@) =~= ls.subrange(1, 1));
    while i < n
        invariant
            ls == views(lines@),
            n == lines@.len(),
            1 <= i <= n,
            is_marker(ls[0], HEADER_START@),
            header_end_from(ls, 1) == header_end_from(ls, i as int),
            views(header@) == ls.subrange(1, i as int),
        decreases n - i,
    {
        assert(ls[i as int] == lines@[i as int]@);
        if marks(&lines[i], HEADER_END) {
            let mut end: Vec<String> = Vec::new();
            let mut j: usize = i + 1;
            assert(views(end@) =~= ls.subrange(i + 1, i + 1));
            while j < n
                invariant
                    ls == views(lines@),
                    n == lines@.len(),
                    i + 1 <= j <= n,
                    views(end@) == ls.subrange(i + 1, j as int),
                decreases n - j,
            {
                let ghost e0 = views(end@);
                let copy = lines[j].clone();
                end.push(copy);
                assert(views(end@) =~= e0.push(copy@));
                assert(views(end@) =~= ls.subrange(i + 1, j + 1));
                j = j + 1;
            }
            assert(ls.subrange(i + 1, n as int) =~= ls.skip(i + 1));
            assert(header_end_from(ls, i as int) == i);
            return Ok((header, end));
        }
        let ghost h0 = views(header@);
        let copy = lines[i].clone();
        header.push(copy);
        assert(views(header@) =~= h0.push(copy@));
        assert(views(header@) =~= ls.subrange(1, i + 1));
        i = i + 1;
    }
    Err(PreprocessError::HeaderNeverEnds)
}

/// The lines of `ls` before the first one that, in upper case, holds the
/// break marker.
pub open spec fn until_break(ls: Seq<Seq<char>>) -> Seq<Seq<char>>
    decreases ls.len(),
{
    if ls.len() == 0 {
        Seq::empty()
    } else if contains(upper_of(ls[0]), BREAK@) {
        Seq::empty()
    } else {
        seq![ls[0]] + until_break(ls.skip(1))
    }
}

/// Returns the output text: the lines up to the first that holds the break
/// marker, with a newline between consecutive lines and none at the end.
pub fn join_until_break(lines: &Vec<String>) -> (r: String)
    ensures
        r@ == join(until_break(views(lines@)), '\n'),
{
    let ghost ls = views(lines@);
    let brk = chars_of(BREAK);
    let mut kept: Vec<String> = Vec::new();
    let mut i: usize = 0;
    assert(ls.skip(0) =~= ls);
    assert(views(kept@) + until_break(ls) =~= until_break(ls));
    while i < lines.len()
        invariant
            ls == views(lines@),
            brk@ == BREAK@,
            i <= lines@.len(),
            until_break(ls) == views(kept@) + until_break(ls.skip(i as int)),
        decreases lines@.len() - i,
    {
        let ghost rest = ls.skip(i as int);
        assert(rest.skip(1) =~= ls.skip(i + 1));
        assert(rest[0] == lines@[i as int]@);
        let upper = to_uppercase(lines[i].as_str());
        let up = chars_of(upper.as_str());
        if contains_chars(&up, &brk) {
            assert(views(kept@) + Seq::<Seq<char>>::empty() =~= views(kept@));
            return join_lines(&kept);
        }
        let ghost k0 = views(kept@);
        let copy = lines[i].clone();
        kept.push(copy);
        assert(views(kept@) =~= k0.push(copy@));
        assert(k0 + (seq![rest[0]] + until_break(rest.skip(1))) =~= views(kept@) + until_break(
            rest.skip(1),
        ));
        i = i + 1;
    }
    assert(ls.skip(i as int) =~= Seq::<Seq<char>>::empty());
    assert(views(kept@) + Seq::<Seq<char>>::empty() =~= views(kept@));
    join_lines(&kept)
}

/// The header and the body of the script after comments and whitespace.
pub open spec fn prepare_spec(ls: Seq<Seq<char>>) -> Result<
    (Seq<Seq<char>>, Seq<Seq<char>>),
    PreprocessError,
> {
    match header_spec(ls) {
        Err(e) => Err(e),
        Ok((h, b)) => Ok((h, condense_lines_spec(strip_lines_spec(b, 0)))),
    }
}

proof fn lemma_header_end_bounds(ls: Seq<Seq<char>>, k: int)
    ensures
        -1 <= header_end_from(ls, k) < ls.len(),
    decreases ls.len() - k,
{
    if 0 <= k < ls.len() && !is_marker(ls[k], HEADER_END@) {
        lemma_header_end_bounds(ls, k + 1);
    }
}

proof fn lemma_total_len_skip(ls: Seq<Seq<char>>, k: int)
    requires
        0 <= k <= ls.len(),
    ensures
        total_len(ls.skip(k)) <= total_len(ls),
    decreases k,
{
    if k > 0 {
        lemma_total_len_skip(ls, k - 1);
        assert(ls.skip(k - 1).skip(1) =~= ls.skip(k));
    } else {
        assert(ls.skip(0) =~= ls);
    }
}

/// Splits off the header, then strips comments and condenses whitespace in
/// the rest of the script.
pub fn prepare(lines: Vec<String>) -> (r: Result<(Vec<String>, Vec<String>), PreprocessError>)
    requires
        total_len(views(lines@)) <= u32::MAX,
    ensures
        r matches Ok(p) ==> prepare_spec(views(lines@)) == Ok::<
            (Seq<Seq<char>>, Seq<Seq<char>>),
            PreprocessError,
        >((views(p.0@), views(p.1@))),
        r matches Err(e) ==> prepare_spec(views(lines@)) == Err::<
            (Seq<Seq<char>>, Seq<Seq<char>>),
            PreprocessError,
        >(e),
{
    let ghost ls = views(lines@);
    let (header, body) = match collect_header_comment(lines) {
        Ok(p) => p,
        Err(e) => {
            return Err(e);
        },
    };
    proof {
        if ls.len() > 0 && is_marker(ls[0], HEADER_START@) {
            lemma_header_end_bounds(ls, 1);
            lemma_total_len_skip(ls, header_end_from(ls, 1) + 1);
        }
    }
    let stripped = strip_comments(body);
    let condensed = condense_whitespace(stripped);
    Ok((header, condensed))
}

/// The output text made from the header and the prepared body, with the
/// outside expansions `ext`: macros, repeat blocks, per-player objects,
/// random ranges and actor-area names, in this order, then the lines up to
/// the break marker.
pub open spec fn finish_spec(
    header: Seq<Seq<char>>,
    body: Seq<Seq<char>>,
    ext: Seq<Seq<Seq<char>>>,
) -> Result<Seq<char>, PreprocessError> {
    match insert_from(body, ext, Seq::empty()) {
        Err(e) => Err(e),
        Ok(a) => match repeat_from(a, Seq::empty(), Seq::empty()) {
            Err(e) => Err(e),
            Ok(b) => match objects_from(b, Seq::empty(), false, 2, Seq::empty()) {
                Err(e) => Err(e),
                Ok(c) => match extract_rnd_spec(c) {
                    Err(e) => Err(e),
                    Ok(d) => match substitute_spec(d) {
                        Err(e) => Err(e),
                        Ok(f) => Ok(join(until_break(header + f), '\n')),
                    },
                },
            },
        },
    }
}

/// Runs the passes from macro expansion on over the prepared `body`, with
/// the outside expansions `outside` that [`crate::macros::outside_requests`]
/// asked for, and returns the output text with the header in front.
pub fn finish(header: Vec<String>, body: Vec<String>, outside: Vec<Vec<String>>) -> (r: Result<
    String,
    PreprocessError,
>)
    ensures
        r matches Ok(t) ==> finish_spec(
            views(header@),
            views(body@),
            outside@.map_values(|e: Vec<String>| views(e@)),
        ) == Ok::<Seq<char>, PreprocessError>(t@),
        r matches Err(e) ==> finish_spec(
            views(header@),
            views(body@),
            outside@.map_values(|e: Vec<String>| views(e@)),
        ) == Err::<Seq<char>, PreprocessError>(e),
{
    let expanded = match insert_macros(body, outside) {
        Ok(v) => v,
        Err(e) => {
            return Err(e);
        },
    };
    let repeated = match repeat_lines(expanded) {
        Ok(v) => v,
        Err(e) => {
            return Err(e);
        },
    };
    let placed = match assign_objects(repeated) {
        Ok(v) => v,
        Err(e) => {
            return Err(e);
        },
    };
    let lifted = match extract_rnd(placed) {
        Ok(v) => v,
        Err(e) => {
            return Err(e);
        },
    };
    let resolved = match substitute_actor_area_names(lifted) {
        Ok(v) => v,
        Err(e) => {
            return Err(e);
        },
    };
    let ghost h = views(header@);
    let mut total = header;
    let ghost r0 = views(resolved@);
    let mut rest = resolved;
    total.append(&mut rest);
    assert(views(total@) =~= h + r0);
    Ok(join_until_break(&total))
}

/// The output text made from the lines of a script, with the outside
/// expansions `ext`.
pub open spec fn process_spec(ls: Seq<Seq<char>>, ext: Seq<Seq<Seq<char>>>) -> Result<
    Seq<char>,
    PreprocessError,
> {
    match prepare_spec(ls) {
        Err(e) => Err(e),
        Ok((h, b)) => finish_spec(h, b, ext),
    }
}

/// Preprocesses the lines of a script and returns the output text, given
/// the outside expansions of the directives that need them.
pub fn process_lines(lines: Vec<String>, outside: Vec<Vec<String>>) -> (r: Result<
    String,
    PreprocessError,
>)
    requires
        total_len(views(lines@)) <= u32::MAX,
    ensures
        r matches Ok(t) ==> process_spec(
            views(lines@),
            outside@.map_values(|e: Vec<String>| views(e@)),
        ) == Ok::<Seq<char>, PreprocessError>(t@),
        r matches Err(e) ==> process_spec(
            views(lines@),
            outside@.map_values(|e: Vec<String>| views(e@)),
        ) == Err::<Seq<char>, PreprocessError>(e),
{
    let (header, body) = match prepare(lines) {
        Ok(p) => p,
        Err(e) => {
            return Err(e);
        },
    };
    finish(header, body, outside)
}

} // verus!
