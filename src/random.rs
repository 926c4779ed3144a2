//! Lifting inline random ranges `rnd(min,max)` out of a script body into
//! weighted random blocks with generated labels.
use vstd::prelude::*;
use crate::error::PreprocessError;
use crate::text::{
    chars_of, contains, contains_chars, decimal, eq_ignore_ascii_case, eq_ignore_ascii_case_spec,
    find_char, first_index, join, join_lines, matches_at, occurs_at, parse_u32, parse_u32_spec, push_decimal,
    push_str, string_of, string_of_range, views,
};

verus! {

/// The `k`-th of `m` weights dividing `n` as evenly as possible: the first
/// `n % m` weights are one larger than the others.
pub open spec fn weight(n: nat, m: nat, k: nat) -> nat
    recommends
        m > 0,
{
    if k < n % m {
        n / m + 1
    } else {
        n / m
    }
}

/// The `m` weights dividing `n`, in order.
pub open spec fn weights(n: nat, m: nat) -> Seq<u32> {
    Seq::new(m, |k: int| weight(n, m, k as nat) as u32)
}

/// Divides `n` into `m` weights that differ by at most one; the first
/// `n % m` of them are `n / m + 1` and the rest `n / m`.
pub fn probs(n: u32, m: u32) -> (r: Vec<u32>)
    requires
        m > 0,
    ensures
        r@ == weights(n as nat, m as nat),
        forall|k: int| 0 <= k < m ==> r@[k] == weight(n as nat, m as nat, k as nat),
{
    let q = n / m;
    let rem = n % m;
    let mut results: Vec<u32> = Vec::new();
    let mut k: u32 = 0;
    while k < m
        invariant
            q == n / m,
            rem == n % m,
            m > 0,
            k <= m,
            results@.len() == k,
            forall|j: int| 0 <= j < k ==> results@[j] == weight(n as nat, m as nat, j as nat),
        decreases m - k,
    {
        assert(q * m <= n) by (nonlinear_arith)
            requires
                q == n / m,
                m > 0,
        ;
        if k < rem {
            assert(q + 1 <= n) by (nonlinear_arith)
                requires
                    q * m <= n,
                    k < rem,
                    rem == n % m,
                    m > 0,
                    q == n / m,
            ;
            results.push(q + 1);
        } else {
            results.push(q);
        }
        k = k + 1;
    }
    assert(results@ =~= weights(n as nat, m as nat));
    results
}

/// The sum of a sequence of weights.
pub open spec fn sum(s: Seq<u32>) -> int
    decreases s.len(),
{
    if s.len() == 0 {
        0
    } else {
        sum(s.drop_last()) + s.last()
    }
}

proof fn lemma_weights_prefix_sum(w: Seq<u32>, n: nat, m: nat, k: int)
    requires
        m > 0,
        w.len() == m,
        forall|j: int| 0 <= j < m ==> w[j] == weight(n, m, j as nat),
        0 <= k <= m,
    ensures
        sum(w.subrange(0, k)) == k * (n / m) + if k < n % m { k } else { (n % m) as int },
    decreases k,
{
    if k == 0 {
        assert(sum(w.subrange(0, 0)) == 0);
        assert(0 * (n / m) == 0) by (nonlinear_arith);
    } else {
        lemma_weights_prefix_sum(w, n, m, k - 1);
        assert(w.subrange(0, k).drop_last() =~= w.subrange(0, k - 1));
        assert(w.subrange(0, k).last() == w[k - 1]);
        assert(w[k - 1] == weight(n, m, (k - 1) as nat));
        assert(sum(w.subrange(0, k)) == sum(w.subrange(0, k - 1)) + w[k - 1]);
        assert(k * (n / m) == (k - 1) * (n / m) + n / m) by (nonlinear_arith);
        if k - 1 < n % m {
            assert(w[k - 1] == n / m + 1);
        } else {
            assert(w[k - 1] == n / m);
        }
    }
}

/// The weights for `m` outcomes, `m` between 1 and 100, share out exactly
/// 100, one per outcome, and no two of them differ by more than one.
pub proof fn lemma_weights_share_hundred(m: nat)
    requires
        1 <= m <= 100,
    ensures
        sum(weights(100, m)) == 100,
        weights(100, m).len() == m,
        forall|i: int, j: int|
            0 <= i < m && 0 <= j < m ==> #[trigger] weights(100, m)[i] <= #[trigger] weights(100, m)[j] + 1,
{
    let w = weights(100, m);
    assert forall|j: int| 0 <= j < m implies w[j] == weight(100, m, j as nat) by {
        assert(weight(100, m, j as nat) <= 100) by (nonlinear_arith)
            requires
                m >= 1,
        {
            assert(100nat / m <= 100);
        }
    }
    lemma_weights_prefix_sum(w, 100, m, m as int);
    assert(w.subrange(0, m as int) =~= w);
    vstd::arithmetic::div_mod::lemma_fundamental_div_mod(100, m as int);
    assert(m * (100nat / m) == (100nat / m) * m) by (nonlinear_arith);
}

/// The label that follows `label`, or the first label `_A` where there is
/// none: the last letter moves on by one, and after `Z` a new `A` is added.
pub open spec fn next_label_spec(label: Option<Seq<char>>) -> Seq<char> {
    match label {
        None => seq!['_', 'A'],
        Some(l) => if l.last() == 'Z' {
            l.push('A')
        } else {
            l.drop_last().push(((l.last() as u32) + 1) as char)
        },
    }
}

/// Returns the label that follows `label`, or `_A` when `label` is `None`.
/// Labels end in an ASCII character: a `Z` gains an `A` after it, any other
/// last character moves on to the next one.
pub fn next_label(label: &Option<&str>) -> (r: String)
    requires
        label matches Some(l) ==> l@.len() > 0 && (l@.last() as u32) < 0x7f,
    ensures
        r@ == next_label_spec(
            match label {
                Some(l) => Some(l@),
                None => None,
            },
        ),
{
    match label {
        None => {
            let mut out: Vec<char> = Vec::new();
            out.push('_');
            out.push('A');
            assert(out@ =~= seq!['_', 'A']);
            string_of(&out)
        },
        Some(l) => {
            let cs = chars_of(l);
            let n = cs.len();
            let last = cs[n - 1];
            assert(last == l@.last());
            if last == 'Z' {
                let mut out = cs;
                out.push('A');
                string_of(&out)
            } else {
                let mut out: Vec<char> = Vec::new();
                let mut i: usize = 0;
                while i < n - 1
                    invariant
                        n == cs@.len(),
                        n > 0,
                        i <= n - 1,
                        out@ == cs@.subrange(0, i as int),
                    decreases n - 1 - i,
                {
                    out.push(cs[i]);
                    assert(out@ =~= cs@.subrange(0, i + 1));
                    i = i + 1;
                }
                let b: u8 = (last as u32) as u8;
                out.push((b + 1) as char);
                assert(out@ =~= cs@.drop_last().push(((last as u32) + 1) as char));
                string_of(&out)
            }
        },
    }
}

/// The `k`-th upper-case letter, for `k < 26`.
pub open spec fn letter(k: nat) -> char {
    (('A' as u32) + k) as char
}

/// The `k`-th label generated from no label: `_A` for `k == 0`, and the
/// label after the `(k - 1)`-th otherwise.
pub open spec fn label_after(k: nat) -> Seq<char>
    decreases k,
{
    if k == 0 {
        next_label_spec(None)
    } else {
        next_label_spec(Some(label_after((k - 1) as nat)))
    }
}

/// The `k`-th generated label is `_`, then `k / 26` letters `Z`, then the
/// `(k % 26)`-th letter.
pub proof fn lemma_label_form(k: nat)
    ensures
        label_after(k) == seq!['_'] + Seq::new(k / 26, |i: int| 'Z') + seq![letter(k % 26)],
    decreases k,
{
    if k == 0 {
        assert(seq!['_'] + Seq::new(0, |i: int| 'Z') + seq![letter(0)] =~= seq!['_', 'A']);
    } else {
        lemma_label_form((k - 1) as nat);
        let p = ((k - 1) as nat) / 26;
        let m = ((k - 1) as nat) % 26;
        let l = label_after((k - 1) as nat);
        assert(l.last() == letter(m));
        if m == 25 {
            assert(letter(25) == 'Z');
            assert(k / 26 == p + 1 && k % 26 == 0);
            assert(l.push('A') =~= seq!['_'] + Seq::new(k / 26, |i: int| 'Z') + seq![letter(0)]);
        } else {
            assert(k / 26 == p && k % 26 == m + 1);
            assert(l.last() != 'Z');
            assert(((letter(m) as u32) + 1) as char == letter(m + 1));
            assert(l.drop_last().push(((l.last() as u32) + 1) as char) =~= seq!['_'] + Seq::new(
                k / 26,
                |i: int| 'Z',
            ) + seq![letter(k % 26)]);
        }
    }
}

/// Generating labels from no label never repeats one: the `i`-th and the
/// `j`-th labels differ whenever `i` and `j` do.
pub proof fn lemma_labels_distinct(i: nat, j: nat)
    requires
        i != j,
    ensures
        label_after(i) != label_after(j),
{
    lemma_label_form(i);
    lemma_label_form(j);
    if i / 26 != j / 26 {
        assert(label_after(i).len() != label_after(j).len());
    } else {
        assert(i % 26 != j % 26);
        let li = label_after(i);
        let lj = label_after(j);
        assert(li.last() == letter(i % 26));
        assert(lj.last() == letter(j % 26));
        assert(letter(i % 26) as u32 != letter(j % 26) as u32);
    }
}

/// The line that opens a random block.
pub const START_RANDOM: &'static str = "start_random";

/// The line that closes a random block.
pub const END_RANDOM: &'static str = "end_random";

/// The words of the definition lines of a random block.
pub const PERCENT_CHANCE: &'static str = "percent_chance ";

/// The words between a weight and its label.
pub const DEFINE: &'static str = " #define ";

/// The line that closes a conditional chain.
pub const ENDIF: &'static str = "endif";

/// The first keyword of a conditional chain.
pub const IF: &'static str = "if";

/// The keyword of each later branch of a conditional chain.
pub const ELSEIF: &'static str = "elseif";

/// The line of a random block that defines `{label}_{k}` with weight `p`.
pub open spec fn definition_line(label: Seq<char>, k: nat, p: nat) -> Seq<char> {
    PERCENT_CHANCE@ + decimal(p) + DEFINE@ + label + seq!['_'] + decimal(k)
}

/// The number of values in `min..=max`.
pub open spec fn range_size(min: nat, max: nat) -> nat {
    if min <= max {
        (max + 1 - min) as nat
    } else {
        0
    }
}

/// The random block that defines one label `{label}_{k}` for each value of
/// `min..=max`, weighted so that the weights share out 100.
pub open spec fn prob_definitions_spec(label: Seq<char>, min: nat, max: nat) -> Seq<char> {
    let m = range_size(min, max);
    join(
        seq![START_RANDOM@] + Seq::new(
            m,
            |k: int| definition_line(label, k as nat, weight(100, m, k as nat)),
        ) + seq![END_RANDOM@],
        '\n',
    )
}

/// Returns the random block of the preamble for `rnd(min,max)`: one line
/// `percent_chance {p} #define {label}_{k}` for each value, between
/// `start_random` and `end_random`.
pub fn prob_definitions(label: &str, min: u32, max: u32) -> (r: String)
    requires
        min < max,
        max < u32::MAX,
    ensures
        r@ == prob_definitions_spec(label@, min as nat, max as nat),
{
    let length = max + 1 - min;
    let percents = probs(100, length);
    let ghost m = range_size(min as nat, max as nat);
    let ghost f = |k: int| definition_line(label@, k as nat, weight(100, m, k as nat));
    let mut lines: Vec<String> = Vec::new();
    lines.push(String::from_str(START_RANDOM));
    let mut k: u32 = 0;
    assert(views(lines@) =~= seq![START_RANDOM@] + Seq::new(0, f));
    while k < length
        invariant
            length as nat == m,
            percents@.len() == m,
            forall|j: int| 0 <= j < m ==> percents@[j] == weight(100, m, j as nat),
            k <= length,
            views(lines@) == seq![START_RANDOM@] + Seq::new(k as nat, f),
            f == (|k: int| definition_line(label@, k as nat, weight(100, m, k as nat))),
        decreases length - k,
    {
        let mut line: Vec<char> = Vec::new();
        push_str(&mut line, PERCENT_CHANCE);
        push_decimal(&mut line, percents[k as usize] as u128);
        push_str(&mut line, DEFINE);
        push_str(&mut line, label);
        line.push('_');
        push_decimal(&mut line, k as u128);
        assert(line@ =~= f(k as int));
        let ghost old_lines = views(lines@);
        lines.push(string_of(&line));
        assert(views(lines@) =~= old_lines.push(f(k as int)));
        assert(seq![START_RANDOM@] + Seq::new((k + 1) as nat, f) =~= (seq![START_RANDOM@]
            + Seq::new(k as nat, f)).push(f(k as int)));
        k = k + 1;
    }
    let ghost old_lines = views(lines@);
    lines.push(String::from_str(END_RANDOM));
    assert(views(lines@) =~= old_lines.push(END_RANDOM@));
    assert(views(lines@) =~= seq![START_RANDOM@] + Seq::new(
        m,
        |k: int| definition_line(label@, k as nat, weight(100, m, k as nat)),
    ) + seq![END_RANDOM@]);
    join_lines(&lines)
}

/// Branch `k` of the conditional chain: the instruction with value `v`
/// under the label `{label}_{k}`, spread over two lines.
pub open spec fn conditional_branch(
    label: Seq<char>,
    instruction: Seq<char>,
    k: nat,
    v: nat,
) -> Seq<char> {
    (if k == 0 { IF@ } else { ELSEIF@ }) + seq![' '] + label + seq!['_'] + decimal(k) + seq!['\n']
        + instruction + seq![' '] + decimal(v)
}

/// The conditional chain that picks the value of `min..=max` whose label is
/// defined, closed by `endif`.
pub open spec fn prob_conditional_spec(
    label: Seq<char>,
    instruction: Seq<char>,
    min: nat,
    max: nat,
) -> Seq<char> {
    join(
        Seq::new(
            range_size(min, max),
            |k: int| conditional_branch(label, instruction, k as nat, (min + k) as nat),
        ) + seq![ENDIF@],
        '\n',
    )
}

/// Returns the conditional chain that replaces `instruction rnd(min,max)`:
/// `if {label}_0`, then `elseif {label}_{k}` for each later value, each
/// followed by the instruction with that value, and `endif`.
pub fn prob_conditional(label: &str, instruction: &str, min: u32, max: u32) -> (r: String)
    ensures
        r@ == prob_conditional_spec(label@, instruction@, min as nat, max as nat),
{
    let count: u64 = if min <= max { (max - min) as u64 + 1 } else { 0 };
    let ghost f = |k: int| conditional_branch(label@, instruction@, k as nat, (min + k) as nat);
    let mut lines: Vec<String> = Vec::new();
    let mut k: u64 = 0;
    assert(views(lines@) =~= Seq::new(0, f));
    while k < count
        invariant
            count == range_size(min as nat, max as nat),
            count <= u32::MAX as u64 + 1,
            k <= count,
            views(lines@) == Seq::new(k as nat, f),
            f == (|k: int| conditional_branch(label@, instruction@, k as nat, (min + k) as nat)),
        decreases count - k,
    {
        let mut line: Vec<char> = Vec::new();
        if k == 0 {
            push_str(&mut line, IF);
        } else {
            push_str(&mut line, ELSEIF);
        }
        line.push(' ');
        push_str(&mut line, label);
        line.push('_');
        push_decimal(&mut line, k as u128);
        line.push('\n');
        push_str(&mut line, instruction);
        line.push(' ');
        push_decimal(&mut line, (min as u64 + k) as u128);
        assert(line@ =~= f(k as int));
        let ghost old_lines = views(lines@);
        lines.push(string_of(&line));
        assert(views(lines@) =~= old_lines.push(f(k as int)));
        assert(Seq::new((k + 1) as nat, f) =~= Seq::new(k as nat, f).push(f(k as int)));
        k = k + 1;
    }
    let ghost old_lines = views(lines@);
    lines.push(String::from_str(ENDIF));
    assert(views(lines@) =~= old_lines.push(ENDIF@));
    assert(views(lines@) =~= Seq::new(
        range_size(min as nat, max as nat),
        |k: int| conditional_branch(label@, instruction@, k as nat, (min + k) as nat),
    ) + seq![ENDIF@]);
    join_lines(&lines)
}

/// What a line `instruction rnd(min,max)` holds: the text before its first
/// space, and the numbers between the first `(` and the first `,` and
/// between that `,` and the first `)`. `None` where one of these characters
/// is missing, they stand out of order, or a number cannot be read.
pub open spec fn random_line_spec(s: Seq<char>) -> Option<(Seq<char>, u32, u32)> {
    let h = first_index(s, ' ');
    let i = first_index(s, '(');
    let j = first_index(s, ',');
    let k = first_index(s, ')');
    if h < 0 || i < 0 || j < 0 || k < 0 || j < i + 1 || k < j + 1 {
        None
    } else {
        match (parse_u32_spec(s.subrange(i + 1, j)), parse_u32_spec(s.subrange(j + 1, k))) {
            (Some(min), Some(max)) => Some((s.subrange(0, h), min, max)),
            _ => None,
        }
    }
}

/// Returns `(instruction, min, max)` read from a line
/// `instruction rnd(min,max)`, or `None` where the line is not of that form.
pub fn extract_random_line(line: &str) -> (r: Option<(String, u32, u32)>)
    ensures
        r matches Some(t) ==> random_line_spec(line@) == Some((t.0@, t.1, t.2)),
        r is None ==> random_line_spec(line@) is None,
{
    let cs = chars_of(line);
    let h = match find_char(&cs, ' ') {
        Some(h) => h,
        None => return None,
    };
    let i = match find_char(&cs, '(') {
        Some(i) => i,
        None => return None,
    };
    let j = match find_char(&cs, ',') {
        Some(j) => j,
        None => return None,
    };
    let k = match find_char(&cs, ')') {
        Some(k) => k,
        None => return None,
    };
    if j <= i || k <= j {
        return None;
    }
    let min = match parse_u32(&cs, i + 1, j) {
        Some(v) => v,
        None => return None,
    };
    let max = match parse_u32(&cs, j + 1, k) {
        Some(v) => v,
        None => return None,
    };
    Some((string_of_range(&cs, 0, h), min, max))
}

/// The directive that asks for random ranges to be lifted out.
pub const EXTRACT_RND: &'static str = "#EXTRACT_RND";

/// The text that marks the end of land and elevation generation.
pub const ELEVATION_MARKER: &'static str = "ELEVATION_GENERATION";

/// The text that marks a line as holding an inline random range.
pub const RND: &'static str = "rnd";

/// The start of an inline random range `rnd(min,max)`.
pub const RND_CALL: &'static str = "rnd(";

/// `p` occurs at two different places in `s`.
pub open spec fn occurs_twice(s: Seq<char>, p: Seq<char>) -> bool {
    exists|i: int, j: int| i < j && occurs_at(s, p, i) && occurs_at(s, p, j)
}

/// Whether `p` occurs at two different places in `v`.
pub fn occurs_twice_in(v: &Vec<char>, p: &Vec<char>) -> (r: bool)
    ensures
        r == occurs_twice(v@, p@),
{
    let mut first: Option<usize> = None;
    let mut i: usize = 0;
    loop
        invariant
            i <= v@.len(),
            first matches Some(f) ==> f < i && occurs_at(v@, p@, f as int),
            forall|j: int| 0 <= j < i && occurs_at(v@, p@, j) ==> (first matches Some(f) && j == f),
        decreases v@.len() - i,
    {
        if matches_at(v, p, i) {
            if first.is_some() {
                return true;
            }
            first = Some(i);
        }
        if i == v.len() {
            assert forall|a: int, b: int| a < b && occurs_at(v@, p@, a) implies !occurs_at(
                v@,
                p@,
                b,
            ) by {
                if occurs_at(v@, p@, b) {
                    assert(b <= v@.len());
                }
            }
            return false;
        }
        i = i + 1;
    }
}

/// Adds `p` in front of the preamble and `b` in front of the body of `r`.
pub open spec fn prepend(
    p: Seq<Seq<char>>,
    b: Seq<Seq<char>>,
    r: Result<(Seq<Seq<char>>, Seq<Seq<char>>), PreprocessError>,
) -> Result<(Seq<Seq<char>>, Seq<Seq<char>>), PreprocessError> {
    match r {
        Ok((p2, b2)) => Ok((p + p2, b + b2)),
        Err(e) => Err(e),
    }
}

/// The preamble and the body made from `ls`, where `finished` says that land
/// generation is over and `label` is the next label to use. Lines up to the
/// end of land generation are kept; after it, each line with a random range
/// gives a random block to the preamble and a conditional chain to the body.
/// The directive that asks for this is dropped wherever it stands.
pub open spec fn extract_from(ls: Seq<Seq<char>>, finished: bool, label: Seq<char>) -> Result<
    (Seq<Seq<char>>, Seq<Seq<char>>),
    PreprocessError,
>
    decreases ls.len(),
{
    if ls.len() == 0 {
        Ok((Seq::empty(), Seq::empty()))
    } else {
        let l = ls[0];
        let rest = ls.skip(1);
        if eq_ignore_ascii_case_spec(l, EXTRACT_RND@) {
            extract_from(rest, finished, label)
        } else if !finished {
            prepend(Seq::empty(), seq![l], extract_from(rest, contains(l, ELEVATION_MARKER@), label))
        } else if !contains(l, RND@) {
            prepend(Seq::empty(), seq![l], extract_from(rest, true, label))
        } else if occurs_twice(l, RND_CALL@) {
            Err(PreprocessError::SeveralRandomRanges)
        } else {
            match random_line_spec(l) {
                None => Err(PreprocessError::MalformedRandomRange),
                Some((ins, min, max)) => if min >= max {
                    Err(PreprocessError::EmptyRandomRange)
                } else if max == u32::MAX {
                    Err(PreprocessError::MalformedRandomRange)
                } else {
                    prepend(
                        seq![prob_definitions_spec(label, min as nat, max as nat)],
                        seq![prob_conditional_spec(label, ins, min as nat, max as nat)],
                        extract_from(rest, true, next_label_spec(Some(label))),
                    )
                },
            }
        }
    }
}

/// Some line of `ls` is the directive that asks for random ranges to be
/// lifted out.
pub open spec fn asks_for_extraction(ls: Seq<Seq<char>>) -> bool {
    exists|i: int| 0 <= i < ls.len() && eq_ignore_ascii_case_spec(#[trigger] ls[i], EXTRACT_RND@)
}

/// The script with its random ranges lifted out: unchanged where it does not
/// ask for it, else the preamble of random blocks followed by the body.
pub open spec fn extract_rnd_spec(ls: Seq<Seq<char>>) -> Result<Seq<Seq<char>>, PreprocessError> {
    if !asks_for_extraction(ls) {
        Ok(ls)
    } else {
        match extract_from(ls, false, next_label_spec(None)) {
            Ok((p, b)) => Ok(p + b),
            Err(e) => Err(e),
        }
    }
}

proof fn lemma_prepend_twice(
    p: Seq<Seq<char>>,
    b: Seq<Seq<char>>,
    x: Seq<Seq<char>>,
    y: Seq<Seq<char>>,
    r: Result<(Seq<Seq<char>>, Seq<Seq<char>>), PreprocessError>,
)
    ensures
        prepend(p, b, prepend(x, y, r)) == prepend(p + x, b + y, r),
{
    match r {
        Ok((p2, b2)) => {
            assert(p + (x + p2) =~= (p + x) + p2);
            assert(b + (y + b2) =~= (b + y) + b2);
        },
        Err(e) => {},
    }
}

/// Lifts the random ranges after land generation into a preamble of random
/// blocks, leaving a conditional chain in place of each, where the script
/// holds the directive that asks for it; the directive itself is dropped.
/// A script without it is returned unchanged.
pub fn extract_rnd(lines: Vec<String>) -> (r: Result<Vec<String>, PreprocessError>)
    ensures
        r matches Ok(v) ==> extract_rnd_spec(views(lines@)) == Ok::<
            Seq<Seq<char>>,
            PreprocessError,
        >(views(v@)),
        r matches Err(e) ==> extract_rnd_spec(views(lines@)) == Err::<
            Seq<Seq<char>>,
            PreprocessError,
        >(e),
{
    let ghost ls = views(lines@);
    let mut asked = false;
    let mut i: usize = 0;
    while i < lines.len()
        invariant
            ls == views(lines@),
            i <= lines@.len(),
            asked == exists|j: int| 0 <= j < i && eq_ignore_ascii_case_spec(#[trigger] ls[j], EXTRACT_RND@),
        decreases lines@.len() - i,
    {
        let cs = chars_of(lines[i].as_str());
        assert(cs@ == ls[i as int]);
        if eq_ignore_ascii_case(&cs, EXTRACT_RND) {
            asked = true;
        }
        i = i + 1;
    }
    if !asked {
        return Ok(lines);
    }
    let elevation = chars_of(ELEVATION_MARKER);
    let rnd = chars_of(RND);
    let rnd_call = chars_of(RND_CALL);
    let mut preamble: Vec<String> = Vec::new();
    let mut body: Vec<String> = Vec::new();
    let mut label = next_label(&None);
    let mut finished = false;
    let ghost whole = extract_from(ls, false, next_label_spec(None));
    i = 0;
    assert(ls.skip(0) =~= ls);
    assert(prepend(Seq::empty(), Seq::empty(), whole) == whole) by {
        lemma_prepend_twice(Seq::empty(), Seq::empty(), Seq::empty(), Seq::empty(), whole);
        match whole {
            Ok((p2, b2)) => {
                assert(Seq::<Seq<char>>::empty() + p2 =~= p2);
                assert(Seq::<Seq<char>>::empty() + b2 =~= b2);
            },
            Err(e) => {},
        }
    }
    while i < lines.len()
        invariant
            ls == views(lines@),
            i <= lines@.len(),
            elevation@ == ELEVATION_MARKER@,
            rnd@ == RND@,
            rnd_call@ == RND_CALL@,
            label@.len() > 0,
            'A' <= label@.last() <= 'Z',
            whole == extract_from(ls, false, next_label_spec(None)),
            asks_for_extraction(ls),
            whole == prepend(views(preamble@), views(body@), extract_from(ls.skip(i as int), finished, label@)),
        decreases lines@.len() - i,
    {
        let ghost rest = ls.skip(i as int);
        assert(rest.skip(1) =~= ls.skip(i + 1));
        assert(rest[0] == lines@[i as int]@);
        let cs = chars_of(lines[i].as_str());
        assert(cs@ == rest[0]);
        let ghost pre0 = views(preamble@);
        let ghost body0 = views(body@);
        if eq_ignore_ascii_case(&cs, EXTRACT_RND) {
        } else if !finished {
            let line = lines[i].clone();
            finished = contains_chars(&cs, &elevation);
            body.push(line);
            proof {
                lemma_prepend_twice(pre0, body0, Seq::empty(), seq![rest[0]], extract_from(rest.skip(1), finished, label@));
                assert(views(body@) =~= body0 + seq![rest[0]]);
                assert(pre0 + Seq::<Seq<char>>::empty() =~= pre0);
            }
        } else if !contains_chars(&cs, &rnd) {
            let line = lines[i].clone();
            body.push(line);
            proof {
                lemma_prepend_twice(pre0, body0, Seq::empty(), seq![rest[0]], extract_from(rest.skip(1), true, label@));
                assert(views(body@) =~= body0 + seq![rest[0]]);
                assert(pre0 + Seq::<Seq<char>>::empty() =~= pre0);
            }
        } else if occurs_twice_in(&cs, &rnd_call) {
            return Err(PreprocessError::SeveralRandomRanges);
        } else {
            match extract_random_line(lines[i].as_str()) {
                None => {
                    return Err(PreprocessError::MalformedRandomRange);
                },
                Some((instruction, min, max)) => {
                    if min >= max {
                        return Err(PreprocessError::EmptyRandomRange);
                    }
                    if max == u32::MAX {
                        return Err(PreprocessError::MalformedRandomRange);
                    }
                    let defs = prob_definitions(label.as_str(), min, max);
                    let cond = prob_conditional(label.as_str(), instruction.as_str(), min, max);
                    preamble.push(defs);
                    body.push(cond);
                    let next = next_label(&Some(label.as_str()));
                    proof {
                        lemma_prepend_twice(
                            pre0,
                            body0,
                            seq![defs@],
                            seq![cond@],
                            extract_from(rest.skip(1), true, next@),
                        );
                        assert(views(body@) =~= body0 + seq![cond@]);
                        assert(views(preamble@) =~= pre0 + seq![defs@]);
                        if label@.last() != 'Z' {
                            assert((((label@.last() as u32) + 1) as char) as u32 == (label@.last() as u32) + 1);
                        }
                    }
                    label = next;
                },
            }
        }
        i = i + 1;
    }
    assert(ls.skip(i as int) =~= Seq::<Seq<char>>::empty());
    assert(views(preamble@) + Seq::<Seq<char>>::empty() =~= views(preamble@));
    assert(views(body@) + Seq::<Seq<char>>::empty() =~= views(body@));
    let ghost p0 = views(preamble@);
    let ghost b0 = views(body@);
    preamble.append(&mut body);
    assert(views(preamble@) =~= p0 + b0);
    Ok(preamble)
}

} // verus!
