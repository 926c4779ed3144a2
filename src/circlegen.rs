//! The part of the macro catalog that places players on a circle or a
//! square of candidate points.
use vstd::prelude::*;
use crate::template::{numbered, push_numbered, push_text};
use crate::random::sum;
use crate::text::{decimal, push_decimal, push_str, split, string_of, views};

verus! {

/// The position labels: fixed lines.
pub const LIST_P1_RANDOM_SELECTION_TEXT_1: &'static str = "start_random";

/// The position labels: block for each number, which stands for `$`.
pub const LIST_P1_RANDOM_SELECTION_TEMPLATE: &'static str = "percent_chance 1 #define P1_POINT_$";

/// The position labels: fixed lines.
pub const LIST_P1_RANDOM_SELECTION_TEXT_2: &'static str = "end_random";

/// The lines of [`list_p1_random_selection`].
pub open spec fn list_p1_random_selection_spec() -> Seq<Seq<char>> {
    split(LIST_P1_RANDOM_SELECTION_TEXT_1@, '\n') + numbered(LIST_P1_RANDOM_SELECTION_TEMPLATE@, 0, 100) + split(LIST_P1_RANDOM_SELECTION_TEXT_2@, '\n')
}

/// Returns a random block that defines one label `P1_POINT_{i}` for each
/// `i` in `0..=99`, each with 1 percent, to pick Player 1's position.
pub fn list_p1_random_selection() -> (r: Vec<String>)
    ensures
        views(r@) == list_p1_random_selection_spec(),
{
    let mut lines: Vec<String> = Vec::new();
    push_text(&mut lines, LIST_P1_RANDOM_SELECTION_TEXT_1);
    push_numbered(&mut lines, LIST_P1_RANDOM_SELECTION_TEMPLATE, 0, 100);
    push_text(&mut lines, LIST_P1_RANDOM_SELECTION_TEXT_2);
    assert(views(lines@) =~= list_p1_random_selection_spec());
    lines
}


/// The distance, in percent of the map width, from the center of a player
/// land to the lands that keep cliffs away from it.
pub const CLIFF_LAND_OFFSET: u32 = 4;

/// The start of the terrain line of a cliff-avoiding land, before the player.
pub const CLIFF_TERRAIN: &'static str = "terrain_type PLAYER_PLACEHOLDER_";

/// The start of the zone line of a cliff-avoiding land.
pub const CLIFF_ZONE: &'static str = "zone ";

/// The start of the position line of a cliff-avoiding land.
pub const CLIFF_POSITION: &'static str = "land position ";

/// The lines of one cliff-avoiding land of `player` centred at `(x, y)`.
pub open spec fn cliff_land(player: nat, x: nat, y: nat) -> Seq<Seq<char>> {
    seq![
        "create_land {"@,
        CLIFF_TERRAIN@ + decimal(player),
        "base_size 0"@,
        "number_of_tiles 0"@,
        CLIFF_ZONE@ + decimal(player),
        CLIFF_POSITION@ + decimal(x) + seq![' '] + decimal(y),
        "}"@,
    ]
}

/// The four cliff-avoiding lands of `player` around `(x, y)`, at the
/// corners of a square whose sides are twice the offset.
pub open spec fn cliff_lands(player: nat, x: nat, y: nat) -> Seq<Seq<char>> {
    let d = CLIFF_LAND_OFFSET as nat;
    cliff_land(player, (x - d) as nat, (y - d) as nat) + cliff_land(player, (x - d) as nat, y + d)
        + cliff_land(player, x + d, (y - d) as nat) + cliff_land(player, x + d, y + d)
}

fn push_cliff_land(lines: &mut Vec<String>, player: u32, x: u32, y: u32)
    ensures
        views(final(lines)@) == views(old(lines)@) + cliff_land(player as nat, x as nat, y as nat),
{
    let ghost l0 = views(lines@);
    let mut terrain: Vec<char> = Vec::new();
    push_str(&mut terrain, CLIFF_TERRAIN);
    push_decimal(&mut terrain, player as u128);
    let mut zone: Vec<char> = Vec::new();
    push_str(&mut zone, CLIFF_ZONE);
    push_decimal(&mut zone, player as u128);
    let mut position: Vec<char> = Vec::new();
    push_str(&mut position, CLIFF_POSITION);
    push_decimal(&mut position, x as u128);
    position.push(' ');
    push_decimal(&mut position, y as u128);
    let a = String::from_str("create_land {");
    let b = string_of(&terrain);
    let c = String::from_str("base_size 0");
    let d = String::from_str("number_of_tiles 0");
    let e = string_of(&zone);
    let f = string_of(&position);
    let g = String::from_str("}");
    lines.push(a);
    lines.push(b);
    lines.push(c);
    lines.push(d);
    lines.push(e);
    lines.push(f);
    lines.push(g);
    assert(views(lines@) =~= l0.push(a@).push(b@).push(c@).push(d@).push(e@).push(f@).push(g@));
    assert(f@ =~= CLIFF_POSITION@ + decimal(x as nat) + seq![' '] + decimal(y as nat));
    let ghost block = cliff_land(player as nat, x as nat, y as nat);
    assert(block[0] == a@ && block[1] == b@ && block[2] == c@ && block[3] == d@);
    assert(block[4] == e@ && block[5] == f@ && block[6] == g@);
    assert(views(lines@) =~= l0 + block);
}

/// Appends the four lands of `player` (1 or 2) that keep cliffs away from
/// the player land centred at `(x, y)`.
pub fn push_cliff_lands(lines: &mut Vec<String>, player: u32, x: u32, y: u32)
    requires
        player == 1 || player == 2,
        CLIFF_LAND_OFFSET <= x <= u32::MAX - CLIFF_LAND_OFFSET,
        CLIFF_LAND_OFFSET <= y <= u32::MAX - CLIFF_LAND_OFFSET,
    ensures
        views(final(lines)@) == views(old(lines)@) + cliff_lands(player as nat, x as nat, y as nat),
{
    let ghost l0 = views(lines@);
    let d = CLIFF_LAND_OFFSET;
    push_cliff_land(lines, player, x - d, y - d);
    push_cliff_land(lines, player, x - d, y + d);
    push_cliff_land(lines, player, x + d, y - d);
    push_cliff_land(lines, player, x + d, y + d);
    assert(views(lines@) =~= l0 + cliff_lands(player as nat, x as nat, y as nat));
}

/// The nonzero entries of `p` stand next to each other, with no zero
/// between two of them.
pub open spec fn nonzero_contiguous(p: Seq<u32>) -> bool {
    forall|a: int, b: int, c: int|
        0 <= a < b < c < p.len() && #[trigger] p[a] > 0 && #[trigger] p[c] > 0 ==> #[trigger] p[b] > 0
}

/// The index of the first nonzero entry of `p` at or after `k`, or
/// `p.len()`.
pub open spec fn first_nonzero(p: Seq<u32>, k: int) -> int
    decreases p.len() - k,
{
    if k < 0 || k >= p.len() {
        p.len() as int
    } else if p[k] != 0 {
        k
    } else {
        first_nonzero(p, k + 1)
    }
}

/// The index of the last nonzero entry of `p` at or before `k`, or -1.
pub open spec fn last_nonzero(p: Seq<u32>, k: int) -> int
    decreases k + 1,
{
    if k < 0 || k >= p.len() {
        -1
    } else if p[k] != 0 {
        k
    } else {
        last_nonzero(p, k - 1)
    }
}

/// The entries after `total - 100` steps that each take one from the larger
/// of the two outer nonzero entries `p[i]` and `p[j]` (from `p[i]` when they
/// are equal), moving inwards past an entry that reaches zero.
pub open spec fn trim_to_hundred(p: Seq<u32>, i: int, j: int, total: int) -> Seq<u32>
    decreases total,
{
    if total <= 100 || !(0 <= i < p.len() && 0 <= j < p.len()) {
        p
    } else {
        let x = p[i];
        let y = p[j];
        if x >= y {
            trim_to_hundred(
                p.update(i, (x - 1) as u32),
                if x == 1 { i + 1 } else { i },
                j,
                total - 1,
            )
        } else {
            trim_to_hundred(
                p.update(j, (y - 1) as u32),
                i,
                if y == 1 { j - 1 } else { j },
                total - 1,
            )
        }
    }
}

/// The percents `p` brought to a total of 100: a shortfall is added to the
/// entry midway between `left` and `right`; an excess is taken off the outer
/// nonzero entries, one at a time.
pub open spec fn renormalize_spec(p: Seq<u32>, left: int, right: int) -> Seq<u32> {
    let total = sum(p);
    if total < 100 {
        p.update((left + right) / 2, (p[(left + right) / 2] + 100 - total) as u32)
    } else if total > 100 {
        trim_to_hundred(p, first_nonzero(p, 0), last_nonzero(p, p.len() - 1), total)
    } else {
        p
    }
}

proof fn lemma_sum_update(s: Seq<u32>, k: int, v: u32)
    requires
        0 <= k < s.len(),
    ensures
        sum(s.update(k, v)) == sum(s) - s[k] + v,
    decreases s.len(),
{
    let t = s.update(k, v);
    if k == s.len() - 1 {
        assert(t.drop_last() =~= s.drop_last());
    } else {
        lemma_sum_update(s.drop_last(), k, v);
        assert(t.drop_last() =~= s.drop_last().update(k, v));
    }
}

proof fn lemma_sum_outside_zero(s: Seq<u32>, i: int, j: int)
    requires
        forall|k: int| 0 <= k < s.len() && (k < i || k > j) ==> s[k] == 0,
    ensures
        i > j ==> sum(s) == 0,
        0 <= i == j < s.len() ==> sum(s) == s[i],
        sum(s) >= 0,
    decreases s.len(),
{
    if s.len() > 0 {
        lemma_sum_outside_zero(s.drop_last(), i, j);
        if 0 <= i == j < s.len() - 1 {
            assert(s.drop_last()[i] == s[i]);
        } else if i == j == s.len() - 1 {
            lemma_sum_outside_zero(s.drop_last(), s.len() as int, s.len() - 1);
        }
    }
}

proof fn lemma_first_nonzero(p: Seq<u32>, k: int, i: int)
    requires
        0 <= k <= i <= p.len(),
        forall|m: int| k <= m < i ==> p[m] == 0,
        i < p.len() ==> p[i] != 0,
    ensures
        first_nonzero(p, k) == i,
    decreases i - k,
{
    if k < i {
        lemma_first_nonzero(p, k + 1, i);
    }
}

proof fn lemma_last_nonzero(p: Seq<u32>, k: int, j: int)
    requires
        -1 <= j <= k < p.len(),
        forall|m: int| j < m <= k ==> p[m] == 0,
        j >= 0 ==> p[j] != 0,
    ensures
        last_nonzero(p, k) == j,
    decreases k - j,
{
    if j < k {
        lemma_last_nonzero(p, k - 1, j);
    }
}

/// Brings the percents `probs` to a total of 100. A shortfall is added to
/// the entry midway between `left` and `right`. An excess is taken off one
/// at a time from the larger of the two outer nonzero entries, the first on
/// a tie, moving inwards past an entry that reaches zero.
pub fn renormalize_probabilities(probs: &mut Vec<u32>, left: usize, right: usize)
    requires
        left <= right,
        sum(old(probs)@) <= u32::MAX,
        sum(old(probs)@) < 100 ==> (left + right) / 2 < old(probs)@.len(),
        nonzero_contiguous(old(probs)@),
    ensures
        final(probs)@ == renormalize_spec(old(probs)@, left as int, right as int),
        sum(final(probs)@) == 100,
{
    let ghost p0 = probs@;
    let mut total: u32 = 0;
    let mut k: usize = 0;
    while k < probs.len()
        invariant
            probs@ == p0,
            k <= p0.len(),
            sum(p0) <= u32::MAX,
            total == sum(p0.subrange(0, k as int)),
        decreases p0.len() - k,
    {
        proof {
            assert(p0.subrange(0, k + 1).drop_last() =~= p0.subrange(0, k as int));
            lemma_sum_prefix(p0, k + 1);
        }
        total = total + probs[k];
        k = k + 1;
    }
    assert(p0.subrange(0, k as int) =~= p0);
    if total < 100 {
        let mid = left + (right - left) / 2;
        proof {
            lemma_entry_le_sum(p0, mid as int);
        }
        let v = probs[mid] + (100 - total);
        probs.set(mid, v);
        proof {
            lemma_sum_update(p0, mid as int, v);
        }
    } else if total > 100 {
        let mut i: usize = 0;
        while probs[i] == 0
            invariant
                probs@ == p0,
                i < p0.len(),
                p0.len() <= usize::MAX,
                sum(p0) == total,
                total > 100,
                forall|m: int| 0 <= m < i ==> p0[m] == 0,
            decreases p0.len() - i,
        {
            proof {
                if i + 1 >= p0.len() {
                    assert(p0[i as int] == 0);
                    assert forall|k: int| 0 <= k < p0.len() implies p0[k] == 0 by {
                        if k < i {
                        }
                    }
                    lemma_sum_outside_zero(p0, p0.len() as int, p0.len() - 1);
                }
            }
            i = i + 1;
        }
        proof {
            lemma_first_nonzero(p0, 0, i as int);
        }
        let mut j: usize = probs.len() - 1;
        while probs[j] == 0
            invariant
                probs@ == p0,
                i <= j < p0.len(),
                p0[i as int] != 0,
                forall|m: int| j < m < p0.len() ==> p0[m] == 0,
            decreases j,
        {
            j = j - 1;
        }
        proof {
            lemma_last_nonzero(p0, p0.len() - 1, j as int);
        }
        let ghost goal = trim_to_hundred(p0, i as int, j as int, total as int);
        let mut t: u32 = total;
        while t != 100
            invariant
                0 <= i <= j < probs@.len(),
                probs@.len() == p0.len(),
                t >= 100,
                sum(probs@) == t,
                forall|m: int| 0 <= m < probs@.len() && (m < i || m > j) ==> probs@[m] == 0,
                forall|m: int| i <= m <= j ==> probs@[m] > 0,
                goal == trim_to_hundred(probs@, i as int, j as int, t as int),
            decreases t,
        {
            let ghost p = probs@;
            let x = probs[i];
            let y = probs[j];
            proof {
                lemma_sum_outside_zero(p, i as int, j as int);
            }
            if x >= y {
                probs.set(i, x - 1);
                proof {
                    lemma_sum_update(p, i as int, (x - 1) as u32);
                }
                if x == 1 {
                    assert(i < j);
                    i = i + 1;
                }
            } else {
                probs.set(j, y - 1);
                proof {
                    lemma_sum_update(p, j as int, (y - 1) as u32);
                }
                if y == 1 {
                    assert(i < j);
                    j = j - 1;
                }
            }
            t = t - 1;
        }
        assert(trim_to_hundred(probs@, i as int, j as int, 100) == probs@);
    }
}

proof fn lemma_sum_prefix(s: Seq<u32>, k: int)
    requires
        0 <= k <= s.len(),
    ensures
        sum(s.subrange(0, k)) <= sum(s),
    decreases s.len() - k,
{
    if k < s.len() {
        lemma_sum_prefix(s, k + 1);
        assert(s.subrange(0, k + 1).drop_last() =~= s.subrange(0, k));
    } else {
        assert(s.subrange(0, k) =~= s);
    }
}

proof fn lemma_entry_le_sum(s: Seq<u32>, k: int)
    requires
        0 <= k < s.len(),
    ensures
        s[k] <= sum(s),
    decreases s.len(),
{
    if k < s.len() - 1 {
        lemma_entry_le_sum(s.drop_last(), k);
        assert(s.drop_last()[k] == s[k]);
    }
    lemma_sum_nonneg(s.drop_last());
}

proof fn lemma_sum_nonneg(s: Seq<u32>)
    ensures
        sum(s) >= 0,
    decreases s.len(),
{
    if s.len() > 0 {
        lemma_sum_nonneg(s.drop_last());
    }
}

} // verus!
