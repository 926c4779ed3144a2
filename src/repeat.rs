//! Expansion of `#REPEAT(n) ... #END_REPEAT` blocks, which may nest.
use vstd::prelude::*;
use crate::error::PreprocessError;
use crate::text::{
    chars_of, eq_ignore_ascii_case, eq_ignore_ascii_case_spec, find_char, first_index, join,
    join_lines, last_index, parse_bounded, parse_spec, rfind_char, split, split_lines,
    starts_with, to_uppercase, upper_of, views, lemma_join_append, lemma_split_join, none_holds,
};

verus! {

/// The directive that opens a repeat block, up to its count.
pub const REPEAT_OPEN: &'static str = "#REPEAT(";

/// The directive that closes a repeat block.
pub const REPEAT_CLOSE: &'static str = "#END_REPEAT";

/// A repeat block being read: its count and the lines of its body so far.
#[derive(Debug)]
pub struct RepeatLines {
    /// The number of times to repeat the lines.
    pub count: usize,
    /// The lines to repeat.
    pub lines: Vec<String>,
}

impl View for RepeatLines {
    type V = (nat, Seq<Seq<char>>);

    open spec fn view(&self) -> (nat, Seq<Seq<char>>) {
        (self.count as nat, views(self.lines@))
    }
}

/// The text of a body `ls` repeated `n` times: the body's lines joined by
/// newlines, `n` times over, joined by newlines; empty when `n` is zero.
pub open spec fn repeat_text(n: nat, ls: Seq<Seq<char>>) -> Seq<char> {
    if n == 0 {
        Seq::empty()
    } else {
        join(Seq::new(n, |i: int| join(ls, '\n')), '\n')
    }
}

impl RepeatLines {
    /// A block that repeats `count` times and has no lines yet.
    pub fn new(count: usize) -> (r: Self)
        ensures
            r@ == (count as nat, Seq::<Seq<char>>::empty()),
    {
        let r = RepeatLines { count, lines: Vec::new() };
        assert(views(r.lines@) =~= Seq::<Seq<char>>::empty());
        r
    }

    /// Adds `line` at the end of the body.
    pub fn push_line(&mut self, line: String)
        ensures
            final(self)@ == (old(self)@.0, old(self)@.1.push(line@)),
    {
        let ghost old_lines = views(self.lines@);
        self.lines.push(line);
        assert(views(self.lines@) =~= old_lines.push(line@));
    }

    /// The body repeated `count` times, as one text with no leading or
    /// trailing newline.
    pub fn get_text(&self) -> (r: String)
        ensures
            r@ == repeat_text(self@.0, self@.1),
    {
        if self.count == 0 {
            return String::new();
        }
        let joined = join_lines(&self.lines);
        let ghost f = |i: int| join(views(self.lines@), '\n');
        let mut copies: Vec<String> = Vec::new();
        let mut k: usize = 0;
        while k < self.count
            invariant
                k <= self.count,
                joined@ == join(views(self.lines@), '\n'),
                views(copies@) == Seq::new(k as nat, f),
                f == (|i: int| join(views(self.lines@), '\n')),
            decreases self.count - k,
        {
            let ghost old_copies = views(copies@);
            let copy = joined.clone();
            copies.push(copy);
            assert(views(copies@) =~= old_copies.push(copy@));
            assert(views(copies@) =~= Seq::new((k + 1) as nat, f));
            k = k + 1;
        }
        join_lines(&copies)
    }
}

/// The count of a repeat-open line: the number between its first `(` and
/// its last `)`, as `str::parse::<usize>` reads it.
pub open spec fn repeat_count_spec(s: Seq<char>) -> Option<nat> {
    let i = first_index(s, '(');
    let j = last_index(s, ')');
    if i < 0 || j < 0 || j < i + 1 {
        None
    } else {
        parse_spec(s.subrange(i + 1, j), usize::MAX as nat)
    }
}

/// Returns the repeat count written between the first `(` and the last `)`
/// of `repeat_line`, as in `#REPEAT(5)`, or `None` where there is none.
pub fn parse_repeat_count(repeat_line: &str) -> (r: Option<usize>)
    ensures
        r matches Some(c) ==> repeat_count_spec(repeat_line@) == Some(c as nat),
        r is None ==> repeat_count_spec(repeat_line@) is None,
{
    let cs = chars_of(repeat_line);
    let i = match find_char(&cs, '(') {
        Some(i) => i,
        None => return None,
    };
    assert(cs@.subrange(0, cs@.len() as int) =~= cs@);
    let j = match rfind_char(&cs, cs.len(), ')') {
        Some(j) => j,
        None => return None,
    };
    if j <= i {
        return None;
    }
    match parse_bounded(&cs, i + 1, j, usize::MAX as u64) {
        Some(x) => Some(x as usize),
        None => None,
    }
}

/// The lines that a closed block `f` leaves: none when its count is zero,
/// else its text split at newlines.
pub open spec fn materialize(f: (nat, Seq<Seq<char>>)) -> Seq<Seq<char>> {
    if f.0 == 0 {
        Seq::empty()
    } else {
        split(repeat_text(f.0, f.1), '\n')
    }
}

/// The stack and output after `new` lines are added: to the body of the
/// innermost open block, or to the output when no block is open.
pub open spec fn add_lines(
    stack: Seq<(nat, Seq<Seq<char>>)>,
    out: Seq<Seq<char>>,
    new: Seq<Seq<char>>,
) -> (Seq<(nat, Seq<Seq<char>>)>, Seq<Seq<char>>) {
    if stack.len() == 0 {
        (stack, out + new)
    } else {
        (stack.drop_last().push((stack.last().0, stack.last().1 + new)), out)
    }
}

/// The output of the repeat expansion of `ls`, given the open blocks
/// `stack` (innermost last) and the output `out` so far.
pub open spec fn repeat_from(
    ls: Seq<Seq<char>>,
    stack: Seq<(nat, Seq<Seq<char>>)>,
    out: Seq<Seq<char>>,
) -> Result<Seq<Seq<char>>, PreprocessError>
    decreases ls.len(),
{
    if ls.len() == 0 {
        if stack.len() == 0 {
            Ok(out)
        } else {
            Err(PreprocessError::UnterminatedRepeat)
        }
    } else {
        let l = ls[0];
        let rest = ls.skip(1);
        if starts_with(upper_of(l), REPEAT_OPEN@) {
            match repeat_count_spec(l) {
                None => Err(PreprocessError::MalformedRepeatCount),
                Some(c) => repeat_from(rest, stack.push((c, Seq::empty())), out),
            }
        } else if eq_ignore_ascii_case_spec(l, REPEAT_CLOSE@) {
            if stack.len() == 0 {
                Err(PreprocessError::UnexpectedEndRepeat)
            } else {
                let s = add_lines(stack.drop_last(), out, materialize(stack.last()));
                repeat_from(rest, s.0, s.1)
            }
        } else {
            let s = add_lines(stack, out, seq![l]);
            repeat_from(rest, s.0, s.1)
        }
    }
}

/// The views of a stack of blocks.
pub open spec fn frames(stack: Seq<RepeatLines>) -> Seq<(nat, Seq<Seq<char>>)> {
    stack.map_values(|f: RepeatLines| f@)
}

fn add_all(stack: &mut Vec<RepeatLines>, out: &mut Vec<String>, new: Vec<String>)
    ensures
        (frames(final(stack)@), views(final(out)@)) == add_lines(
            frames(old(stack)@),
            views(old(out)@),
            views(new@),
        ),
{
    let ghost s0 = frames(stack@);
    let ghost o0 = views(out@);
    if stack.len() == 0 {
        let mut k: usize = 0;
        while k < new.len()
            invariant
                k <= new@.len(),
                stack@.len() == 0,
                frames(stack@) == s0,
                views(out@) == o0 + views(new@).subrange(0, k as int),
            decreases new@.len() - k,
        {
            let ghost o = views(out@);
            let copy = new[k].clone();
            out.push(copy);
            assert(views(out@) =~= o.push(copy@));
            assert(views(out@) =~= o0 + views(new@).subrange(0, k + 1));
            k = k + 1;
        }
        assert(views(new@).subrange(0, k as int) =~= views(new@));
        assert(frames(stack@) =~= s0);
    } else {
        let mut top = match stack.pop() {
            Some(t) => t,
            None => return,
        };
        assert(frames(stack@) =~= s0.drop_last());
        let ghost t0 = top@;
        let mut k: usize = 0;
        while k < new.len()
            invariant
                k <= new@.len(),
                top@ == (t0.0, t0.1 + views(new@).subrange(0, k as int)),
            decreases new@.len() - k,
        {
            let copy = new[k].clone();
            top.push_line(copy);
            assert(t0.1 + views(new@).subrange(0, k + 1) =~= (t0.1 + views(new@).subrange(
                0,
                k as int,
            )).push(new@[k as int]@));
            k = k + 1;
        }
        assert(views(new@).subrange(0, k as int) =~= views(new@));
        let ghost s1 = frames(stack@);
        stack.push(top);
        assert(frames(stack@) =~= s1.push(top@));
    }
}

/// Expands every repeat block: its body appears `count` times in place of
/// the block, inside the enclosing block if there is one.
pub fn repeat_lines(lines: Vec<String>) -> (r: Result<Vec<String>, PreprocessError>)
    ensures
        r matches Ok(v) ==> repeat_from(views(lines@), Seq::empty(), Seq::empty()) == Ok::<
            Seq<Seq<char>>,
            PreprocessError,
        >(views(v@)),
        r matches Err(e) ==> repeat_from(views(lines@), Seq::empty(), Seq::empty()) == Err::<
            Seq<Seq<char>>,
            PreprocessError,
        >(e),
{
    let ghost ls = views(lines@);
    let ghost whole = repeat_from(ls, Seq::empty(), Seq::empty());
    let mut repeats: Vec<RepeatLines> = Vec::new();
    let mut output: Vec<String> = Vec::new();
    let mut i: usize = 0;
    assert(ls.skip(0) =~= ls);
    assert(frames(repeats@) =~= Seq::<(nat, Seq<Seq<char>>)>::empty());
    assert(views(output@) =~= Seq::<Seq<char>>::empty());
    while i < lines.len()
        invariant
            ls == views(lines@),
            i <= lines@.len(),
            whole == repeat_from(ls, Seq::empty(), Seq::empty()),
            whole == repeat_from(ls.skip(i as int), frames(repeats@), views(output@)),
        decreases lines@.len() - i,
    {
        let ghost rest = ls.skip(i as int);
        assert(rest.skip(1) =~= ls.skip(i + 1));
        assert(rest[0] == lines@[i as int]@);
        let line = lines[i].clone();
        let upper = to_uppercase(line.as_str());
        let up = chars_of(upper.as_str());
        let open = chars_of(REPEAT_OPEN);
        let cs = chars_of(line.as_str());
        if crate::text::matches_at(&up, &open, 0) {
            match parse_repeat_count(line.as_str()) {
                None => {
                    return Err(PreprocessError::MalformedRepeatCount);
                },
                Some(c) => {
                    let ghost f0 = frames(repeats@);
                    repeats.push(RepeatLines::new(c));
                    assert(frames(repeats@) =~= f0.push((c as nat, Seq::empty())));
                },
            }
        } else if eq_ignore_ascii_case(&cs, REPEAT_CLOSE) {
            let ghost f0 = frames(repeats@);
            let last = match repeats.pop() {
                Some(last) => last,
                None => {
                    return Err(PreprocessError::UnexpectedEndRepeat);
                },
            };
            assert(frames(repeats@) =~= f0.drop_last());
            let new = if last.count == 0 {
                Vec::new()
            } else {
                split_lines(last.get_text().as_str())
            };
            assert(views(new@) =~= materialize(last@));
            add_all(&mut repeats, &mut output, new);
        } else {
            let mut new: Vec<String> = Vec::new();
            new.push(line);
            assert(views(new@) =~= seq![rest[0]]);
            add_all(&mut repeats, &mut output, new);
        }
        i = i + 1;
    }
    assert(ls.skip(i as int) =~= Seq::<Seq<char>>::empty());
    if repeats.len() != 0 {
        return Err(PreprocessError::UnterminatedRepeat);
    }
    Ok(output)
}

/// The lines of `ls`, `n` times over.
pub open spec fn repeated(ls: Seq<Seq<char>>, n: nat) -> Seq<Seq<char>>
    decreases n,
{
    if n == 0 {
        Seq::empty()
    } else {
        repeated(ls, (n - 1) as nat) + ls
    }
}

/// A line that is neither a repeat-open nor a repeat-close directive.
pub open spec fn plain_line(l: Seq<char>) -> bool {
    !starts_with(upper_of(l), REPEAT_OPEN@) && !eq_ignore_ascii_case_spec(l, REPEAT_CLOSE@)
}

proof fn lemma_body_into_frame(
    body: Seq<Seq<char>>,
    rest: Seq<Seq<char>>,
    stack: Seq<(nat, Seq<Seq<char>>)>,
    c: nat,
    acc: Seq<Seq<char>>,
    out: Seq<Seq<char>>,
)
    requires
        forall|i: int| 0 <= i < body.len() ==> plain_line(#[trigger] body[i]),
    ensures
        repeat_from(body + rest, stack.push((c, acc)), out) == repeat_from(
            rest,
            stack.push((c, acc + body)),
            out,
        ),
    decreases body.len(),
{
    if body.len() == 0 {
        assert(body + rest =~= rest);
        assert(acc + body =~= acc);
    } else {
        let ls = body + rest;
        assert(ls[0] == body[0]);
        assert(plain_line(body[0]));
        assert(ls.skip(1) =~= body.skip(1) + rest);
        let st = stack.push((c, acc));
        assert(st.drop_last() =~= stack);
        assert(st.last() == (c, acc));
        assert(acc + seq![body[0]] =~= acc.push(body[0]));
        assert(add_lines(st, out, seq![body[0]]).0 =~= stack.push((c, acc.push(body[0]))));
        assert forall|i: int| 0 <= i < body.skip(1).len() implies plain_line(
            #[trigger] body.skip(1)[i],
        ) by {
            assert(body.skip(1)[i] == body[i + 1]);
        }
        lemma_body_into_frame(body.skip(1), rest, stack, c, acc.push(body[0]), out);
        assert(acc.push(body[0]) + body.skip(1) =~= acc + body);
    }
}

proof fn lemma_repeat_text(body: Seq<Seq<char>>, n: nat)
    requires
        body.len() > 0,
        n > 0,
    ensures
        repeat_text(n, body) == join(repeated(body, n), '\n'),
        repeated(body, n).len() > 0,
    decreases n,
{
    let g = |i: int| join(body, '\n');
    if n == 1 {
        assert(repeated(body, 0) + body =~= body);
        assert(Seq::new(1, g).len() == 1);
    } else {
        lemma_repeat_text(body, (n - 1) as nat);
        assert(Seq::new(n, g).drop_last() =~= Seq::new((n - 1) as nat, g));
        lemma_join_append(repeated(body, (n - 1) as nat), body, '\n');
    }
}

proof fn lemma_repeated_holds_no(body: Seq<Seq<char>>, n: nat, c: char)
    requires
        none_holds(body, c),
    ensures
        none_holds(repeated(body, n), c),
    decreases n,
{
    if n > 0 {
        lemma_repeated_holds_no(body, (n - 1) as nat, c);
        let p = repeated(body, (n - 1) as nat);
        assert forall|i: int, j: int| 0 <= i < (p + body).len() && 0 <= j < (p + body)[i].len() implies (
        p + body)[i][j] != c by {
            if i < p.len() {
                assert((p + body)[i] == p[i]);
            } else {
                assert((p + body)[i] == body[i - p.len()]);
            }
        }
    }
}

/// A repeat block of count `c` around a body of plain lines expands to the
/// body `c` times over, in order; with count zero it leaves no lines at all,
/// whatever its body.
pub proof fn lemma_repeat_block(open: Seq<char>, body: Seq<Seq<char>>, close: Seq<char>, c: nat)
    requires
        starts_with(upper_of(open), REPEAT_OPEN@),
        repeat_count_spec(open) == Some(c),
        eq_ignore_ascii_case_spec(close, REPEAT_CLOSE@),
        !starts_with(upper_of(close), REPEAT_OPEN@),
        forall|i: int| 0 <= i < body.len() ==> plain_line(#[trigger] body[i]),
        c > 0 ==> body.len() > 0 && none_holds(body, '\n'),
    ensures
        repeat_from(seq![open] + body + seq![close], Seq::empty(), Seq::empty()) == Ok::<
            Seq<Seq<char>>,
            PreprocessError,
        >(repeated(body, c)),
{
    let ls = seq![open] + body + seq![close];
    let empty_out = Seq::<Seq<char>>::empty();
    let no_frames = Seq::<(nat, Seq<Seq<char>>)>::empty();
    assert(ls[0] == open);
    assert(ls.skip(1) =~= body + seq![close]);
    lemma_body_into_frame(body, seq![close], no_frames, c, Seq::empty(), empty_out);
    assert(no_frames.push((c, Seq::empty() + body)) =~= seq![(c, body)]);
    assert(Seq::<Seq<char>>::empty() + body =~= body);
    let tail = seq![close];
    assert(tail[0] == close);
    assert(tail.skip(1) =~= Seq::<Seq<char>>::empty());
    assert(repeat_from(ls, no_frames, empty_out) == repeat_from(
        body + seq![close],
        no_frames.push((c, Seq::empty())),
        empty_out,
    ));
    assert(repeat_from(tail, seq![(c, body)], empty_out) == repeat_from(
        Seq::empty(),
        no_frames,
        empty_out + materialize((c, body)),
    )) by {
        assert(seq![(c, body)].drop_last() =~= no_frames);
        assert(seq![(c, body)].last() == (c, body));
    }
    if c == 0 {
        assert(empty_out + materialize((c, body)) =~= repeated(body, c));
    } else {
        lemma_repeat_text(body, c);
        lemma_repeated_holds_no(body, c, '\n');
        lemma_split_join(repeated(body, c), '\n');
        assert(empty_out + materialize((c, body)) =~= repeated(body, c));
    }
}

} // verus!
