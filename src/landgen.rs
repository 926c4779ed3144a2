//! The part of the macro catalog that lays out lands: player slots, labels
//! for random directions, and terrain borders.
use vstd::prelude::*;
use crate::template::{numbered, push_numbered, push_text};
use crate::text::{decimal, push_decimal, push_str, split, string_of, views};

verus! {

/// The number of player slots around the map.
pub const NUM_SLOTS: usize = 20;

/// A player slot, in `0..NUM_SLOTS`, counted clockwise from the top left.
#[derive(Clone, Copy, Debug, PartialEq, Eq, Structural, Hash)]
pub struct Slot(pub usize);

/// The percent chance that Player 2 is in a slot `distance` slots away
/// from Player 1: 10 at distance 7 or 13, 16 from 8 to 12, else 0.
pub open spec fn opponent_probability_spec(distance: int) -> u32 {
    if distance == 7 || distance == 13 {
        10
    } else if 8 <= distance <= 12 {
        16
    } else {
        0
    }
}

/// Returns the percent chance that a player in `p1_slot` has the opponent in
/// `p2_slot`.
pub fn opponent_probability(p1_slot: Slot, p2_slot: Slot) -> (r: u32)
    requires
        p1_slot.0 < NUM_SLOTS,
        p2_slot.0 < NUM_SLOTS,
    ensures
        r == opponent_probability_spec(
            if p1_slot.0 <= p2_slot.0 {
                p2_slot.0 - p1_slot.0
            } else {
                p1_slot.0 - p2_slot.0
            },
        ),
{
    let (min_slot, max_slot) = if p1_slot.0 <= p2_slot.0 {
        (p1_slot.0, p2_slot.0)
    } else {
        (p2_slot.0, p1_slot.0)
    };
    let distance = (max_slot - min_slot) % NUM_SLOTS;
    if distance == 7 || distance == 13 {
        10
    } else if 8 <= distance && distance <= 12 {
        16
    } else {
        0
    }
}

/// The slot labels: fixed lines.
pub const DEFINE_LABELS_TEXT_1: &'static str = "start_random";

/// The slot labels: block for each number, which stands for `$`.
pub const DEFINE_LABELS_TEMPLATE: &'static str = "percent_chance 5 #define P1_SLOT_$";

/// The slot labels: fixed lines.
pub const DEFINE_LABELS_TEXT_2: &'static str = "end_random\n\
start_random\n\
percent_chance 10 #define P2_POS_0\n\
percent_chance 16 #define P2_POS_1\n\
percent_chance 16 #define P2_POS_2\n\
percent_chance 16 #define P2_POS_3\n\
percent_chance 16 #define P2_POS_4\n\
percent_chance 16 #define P2_POS_5\n\
percent_chance 10 #define P2_POS_6\n\
end_random";

/// The lines of [`define_labels`].
pub open spec fn define_labels_spec() -> Seq<Seq<char>> {
    split(DEFINE_LABELS_TEXT_1@, '\n') + numbered(DEFINE_LABELS_TEMPLATE@, 0, 20) + split(DEFINE_LABELS_TEXT_2@, '\n')
}

/// Returns the random blocks that pick Player 1's slot `P1_SLOT_0` to
/// `P1_SLOT_19`, each with 5 percent, and Player 2's position `P2_POS_0` to
/// `P2_POS_6`.
pub fn define_labels() -> (r: Vec<String>)
    ensures
        views(r@) == define_labels_spec(),
{
    let mut lines: Vec<String> = Vec::new();
    push_text(&mut lines, DEFINE_LABELS_TEXT_1);
    push_numbered(&mut lines, DEFINE_LABELS_TEMPLATE, 0, 20);
    push_text(&mut lines, DEFINE_LABELS_TEXT_2);
    assert(views(lines@) =~= define_labels_spec());
    lines
}

/// The rock lands: block for each number, which stands for `$`.
pub const ROCK_BORDER_TEMPLATE: &'static str = "create_land {\n\
land_position $ 0\n\
number_of_tiles rnd(15,25)\n\
base_size 1\n\
base_elevation rnd(4,6)\n\
terrain_type DLC_ROCK\n\
zone 1\n\
}\n\
create_land {\n\
land_position $ 99\n\
number_of_tiles rnd(15,25)\n\
base_size 1\n\
base_elevation rnd(4,6)\n\
terrain_type DLC_ROCK\n\
zone 2\n\
}";

/// The lines of [`rock_border`].
pub open spec fn rock_border_spec() -> Seq<Seq<char>> {
    numbered(ROCK_BORDER_TEMPLATE@, 0, 101)
}

/// Returns the Ze Snake lands that raise rocks along the top and bottom
/// edges of the map, one pair for each column from 0 to 100.
pub fn rock_border() -> (r: Vec<String>)
    ensures
        views(r@) == rock_border_spec(),
{
    let mut lines: Vec<String> = Vec::new();
    push_numbered(&mut lines, ROCK_BORDER_TEMPLATE, 0, 101);
    assert(views(lines@) =~= rock_border_spec());
    lines
}

/// The direction labels: fixed lines.
pub const DIRECTION_LABELS_TEXT_1: &'static str = "start_random";

/// The direction labels: block for each number, which stands for `$`.
pub const DIRECTION_LABELS_TEMPLATE: &'static str = "percent_chance 1 #define DIRECTION$";

/// The direction labels: fixed lines.
pub const DIRECTION_LABELS_TEXT_2: &'static str = "end_random";

/// The lines of [`direction_labels`].
pub open spec fn direction_labels_spec() -> Seq<Seq<char>> {
    split(DIRECTION_LABELS_TEXT_1@, '\n') + numbered(DIRECTION_LABELS_TEMPLATE@, 0, 100) + split(DIRECTION_LABELS_TEXT_2@, '\n')
}

/// Returns a random block that defines one label `DIRECTION{i}` for each `i`
/// in `0..=99`, each with 1 percent.
pub fn direction_labels() -> (r: Vec<String>)
    ensures
        views(r@) == direction_labels_spec(),
{
    let mut lines: Vec<String> = Vec::new();
    push_text(&mut lines, DIRECTION_LABELS_TEXT_1);
    push_numbered(&mut lines, DIRECTION_LABELS_TEMPLATE, 0, 100);
    push_text(&mut lines, DIRECTION_LABELS_TEXT_2);
    assert(views(lines@) =~= direction_labels_spec());
    lines
}

/// The separating lands: block for each number, which stands for `$`.
pub const FOUR_SEASONS_LANDS_TEMPLATE_1: &'static str = "create_land { land_position $ 50 base_size 1 number_of_tiles 0 terrain_type DLC_ROCK }";

/// The separating lands: block for each number, which stands for `$`.
pub const FOUR_SEASONS_LANDS_TEMPLATE_2: &'static str = "create_land { land_position 50 $ base_size 1 number_of_tiles 0 terrain_type DLC_ROCK }";

/// The lines of [`four_seasons_lands`].
pub open spec fn four_seasons_lands_spec() -> Seq<Seq<char>> {
    numbered(FOUR_SEASONS_LANDS_TEMPLATE_1@, 0, 101) + numbered(FOUR_SEASONS_LANDS_TEMPLATE_2@, 0, 101)
}

/// Returns the rock lands that separate the four regions of Four Seasons
/// along the middle row and column.
pub fn four_seasons_lands() -> (r: Vec<String>)
    ensures
        views(r@) == four_seasons_lands_spec(),
{
    let mut lines: Vec<String> = Vec::new();
    push_numbered(&mut lines, FOUR_SEASONS_LANDS_TEMPLATE_1, 0, 101);
    push_numbered(&mut lines, FOUR_SEASONS_LANDS_TEMPLATE_2, 0, 101);
    assert(views(lines@) =~= four_seasons_lands_spec());
    lines
}

/// The lakes: fixed lines.
pub const FOUR_SEASONS_LAKES_TEXT: &'static str = "if GRASS_LAKE\n\
if WEST_GRASS\n\
create_land { land_position 0 0 base_size 5 border_fuzziness 15 right_border 86 bottom_border 86 land_percent 100 terrain_type GRASS_WATER_PLACEHOLDER }\n\
elseif NORTH_GRASS\n\
create_land { land_position 100 0 base_size 5 border_fuzziness 15 left_border 86 bottom_border 86 land_percent 100 terrain_type GRASS_WATER_PLACEHOLDER }\n\
elseif SOUTH_GRASS\n\
create_land { land_position 0 99 base_size 5 border_fuzziness 15 right_border 86 top_border 86 land_percent 100 terrain_type GRASS_WATER_PLACEHOLDER }\n\
elseif EAST_GRASS\n\
create_land { land_position 100 99 base_size 5 border_fuzziness 15 left_border 86 top_border 86 land_percent 100 terrain_type GRASS_WATER_PLACEHOLDER }\n\
endif\n\
endif\n\
if SNOW_LAKE\n\
if WEST_SNOW\n\
create_land { land_position 0 0 base_size 5 border_fuzziness 15 right_border 86 bottom_border 86 land_percent 100 terrain_type SNOW_WATER_PLACEHOLDER }\n\
elseif NORTH_SNOW\n\
create_land { land_position 100 0 base_size 5 border_fuzziness 15 left_border 86 bottom_border 86 land_percent 100 terrain_type SNOW_WATER_PLACEHOLDER }\n\
elseif SOUTH_SNOW\n\
create_land { land_position 0 99 base_size 5 border_fuzziness 15 right_border 86 top_border 86 land_percent 100 terrain_type SNOW_WATER_PLACEHOLDER }\n\
elseif EAST_SNOW\n\
create_land { land_position 100 99 base_size 5 border_fuzziness 15 left_border 86 top_border 86 land_percent 100 terrain_type SNOW_WATER_PLACEHOLDER }\n\
endif\n\
endif\n\
if DIRT_LAKE\n\
if WEST_DIRT\n\
create_land { land_position 0 0 base_size 5 border_fuzziness 15 right_border 86 bottom_border 86 land_percent 100 terrain_type DIRT_WATER_PLACEHOLDER }\n\
elseif NORTH_DIRT\n\
create_land { land_position 100 0 base_size 5 border_fuzziness 15 left_border 86 bottom_border 86 land_percent 100 terrain_type DIRT_WATER_PLACEHOLDER }\n\
elseif SOUTH_DIRT\n\
create_land { land_position 0 99 base_size 5 border_fuzziness 15 right_border 86 top_border 86 land_percent 100 terrain_type DIRT_WATER_PLACEHOLDER }\n\
elseif EAST_DIRT\n\
create_land { land_position 100 99 base_size 5 border_fuzziness 15 left_border 86 top_border 86 land_percent 100 terrain_type DIRT_WATER_PLACEHOLDER }\n\
endif\n\
endif\n\
if JUNGLE_LAKE\n\
if WEST_JUNGLE\n\
create_land { land_position 0 0 base_size 5 border_fuzziness 15 right_border 86 bottom_border 86 land_percent 100 terrain_type JUNGLE_WATER_PLACEHOLDER }\n\
elseif NORTH_JUNGLE\n\
create_land { land_position 100 0 base_size 5 border_fuzziness 15 left_border 86 bottom_border 86 land_percent 100 terrain_type JUNGLE_WATER_PLACEHOLDER }\n\
elseif SOUTH_JUNGLE\n\
create_land { land_position 0 99 base_size 5 border_fuzziness 15 right_border 86 top_border 86 land_percent 100 terrain_type JUNGLE_WATER_PLACEHOLDER }\n\
elseif EAST_JUNGLE\n\
create_land { land_position 100 99 base_size 5 border_fuzziness 15 left_border 86 top_border 86 land_percent 100 terrain_type JUNGLE_WATER_PLACEHOLDER }\n\
endif\n\
endif";

/// The lines of [`four_seasons_lakes`].
pub open spec fn four_seasons_lakes_spec() -> Seq<Seq<char>> {
    split(FOUR_SEASONS_LAKES_TEXT@, '\n')
}

/// Returns the conditional blocks that create the corner lake of each
/// region of Four Seasons.
pub fn four_seasons_lakes() -> (r: Vec<String>)
    ensures
        views(r@) == four_seasons_lakes_spec(),
{
    let mut lines: Vec<String> = Vec::new();
    push_text(&mut lines, FOUR_SEASONS_LAKES_TEXT);
    assert(views(lines@) =~= four_seasons_lakes_spec());
    lines
}


/// The lines of a Ze Snake border land, before its base size.
pub const SNAKE_LAND_HEAD: &'static str = "create_land {\n\
terrain_type DLC_MANGROVESHALLOW\n\
number_of_tiles 0\n\
base_size ";

/// The words between the base size of a border land and its position.
pub const SNAKE_LAND_POSITION: &'static str = "\nland_position ";

/// The end of a border land.
pub const SNAKE_LAND_END: &'static str = "\n}";

/// The text of one border land of Ze Snake at `(x, y)`.
pub open spec fn snake_land_spec(base_size: nat, x: nat, y: nat) -> Seq<char> {
    SNAKE_LAND_HEAD@ + decimal(base_size) + SNAKE_LAND_POSITION@ + decimal(x) + seq![' ']
        + decimal(y) + SNAKE_LAND_END@
}

/// Returns one border land of Ze Snake at `(x, y)`, with no tiles beyond
/// its base, as one text of several lines.
pub fn snake_land_line(base_size: usize, x: usize, y: usize) -> (r: String)
    requires
        x <= 100,
        y <= 100,
    ensures
        r@ == snake_land_spec(base_size as nat, x as nat, y as nat),
{
    let mut out: Vec<char> = Vec::new();
    push_str(&mut out, SNAKE_LAND_HEAD);
    push_decimal(&mut out, base_size as u128);
    push_str(&mut out, SNAKE_LAND_POSITION);
    push_decimal(&mut out, x as u128);
    out.push(' ');
    push_decimal(&mut out, y as u128);
    push_str(&mut out, SNAKE_LAND_END);
    string_of(&out)
}

/// The `k`-th of the Ze Snake border lands: pairs along the top and bottom
/// edges for each column, then pairs along the left and right edges for
/// each row.
pub open spec fn snake_border_spec(k: int) -> Seq<char> {
    if k < 202 {
        if k % 2 == 0 {
            snake_land_spec(1, (k / 2) as nat, 0)
        } else {
            snake_land_spec(2, (k / 2) as nat, 100)
        }
    } else {
        if k % 2 == 0 {
            snake_land_spec(1, 0, ((k - 202) / 2) as nat)
        } else {
            snake_land_spec(2, 100, ((k - 202) / 2) as nat)
        }
    }
}

/// The lines of [`snake_borders`].
pub open spec fn snake_borders_spec() -> Seq<Seq<char>> {
    Seq::new(404, |k: int| snake_border_spec(k))
}

/// Returns the rock border lands of Ze Snake, each as one text.
pub fn snake_borders() -> (r: Vec<String>)
    ensures
        views(r@) == snake_borders_spec(),
{
    let ghost f = |k: int| snake_border_spec(k);
    let mut lines: Vec<String> = Vec::new();
    let mut x: usize = 0;
    while x <= 100
        invariant
            x <= 101,
            views(lines@) == Seq::new((2 * x) as nat, f),
            f == (|k: int| snake_border_spec(k)),
        decreases 101 - x,
    {
        let ghost l0 = views(lines@);
        let a = snake_land_line(1, x, 0);
        let b = snake_land_line(2, x, 100);
        lines.push(a);
        lines.push(b);
        assert(views(lines@) =~= l0.push(a@).push(b@));
        assert(views(lines@) =~= Seq::new((2 * x + 2) as nat, f));
        x = x + 1;
    }
    let mut y: usize = 0;
    while y <= 100
        invariant
            y <= 101,
            views(lines@) == Seq::new((202 + 2 * y) as nat, f),
            f == (|k: int| snake_border_spec(k)),
        decreases 101 - y,
    {
        let ghost l0 = views(lines@);
        let a = snake_land_line(1, 0, y);
        let b = snake_land_line(2, 100, y);
        lines.push(a);
        lines.push(b);
        assert(views(lines@) =~= l0.push(a@).push(b@));
        assert(views(lines@) =~= Seq::new((202 + 2 * y + 2) as nat, f));
        y = y + 1;
    }
    lines
}

/// The index of the ally of the player at index `i` on Black Forest.
pub open spec fn bf_ally_spec(i: int) -> int {
    if i == 0 || i == 1 {
        1
    } else if i == 2 {
        3
    } else {
        2
    }
}

/// Returns the index of the ally of the player at index `i`, for `i` in
/// `0..=3`.
pub fn bf_ally(i: usize) -> (r: usize)
    requires
        i <= 3,
    ensures
        r == bf_ally_spec(i as int),
{
    if i == 0 || i == 1 {
        1
    } else if i == 2 {
        3
    } else {
        2
    }
}

/// Returns the index of the enemy flank of the player at index `i`, for `i`
/// in `0..=3`.
pub fn bf_flank(i: usize) -> (r: usize)
    requires
        i <= 3,
    ensures
        r == 3 - i,
{
    3 - i
}

/// The `(x, y)` position of a land.
pub type LandPoint = (i32, i32);

/// The squared distance between `p` and `c`.
pub open spec fn sq_distance(p: LandPoint, c: LandPoint) -> int {
    (p.0 - c.0) * (p.0 - c.0) + (p.1 - c.1) * (p.1 - c.1)
}

/// The sort key of `p`: its squared distance to `c`, negated when sorting
/// from the farthest.
pub open spec fn distance_key(p: LandPoint, c: LandPoint, farthest_first: bool) -> int {
    if farthest_first {
        -sq_distance(p, c)
    } else {
        sq_distance(p, c)
    }
}

/// The sorted `s` with `x` added after every point whose key is at most
/// that of `x`.
pub open spec fn insert_by_key(
    s: Seq<LandPoint>,
    x: LandPoint,
    c: LandPoint,
    farthest_first: bool,
) -> Seq<LandPoint>
    decreases s.len(),
{
    if s.len() == 0 || distance_key(s.last(), c, farthest_first) <= distance_key(x, c, farthest_first) {
        s.push(x)
    } else {
        insert_by_key(s.drop_last(), x, c, farthest_first).push(s.last())
    }
}

/// `s` sorted by distance to `c`, keeping the order of points at equal
/// distance, as a stable sort does.
pub open spec fn sort_by_distance_spec(s: Seq<LandPoint>, c: LandPoint, farthest_first: bool) -> Seq<
    LandPoint,
>
    decreases s.len(),
{
    if s.len() == 0 {
        Seq::empty()
    } else {
        insert_by_key(sort_by_distance_spec(s.drop_last(), c, farthest_first), s.last(), c, farthest_first)
    }
}

fn distance_key_of(p: LandPoint, c: LandPoint, farthest_first: bool) -> (r: i128)
    ensures
        r == distance_key(p, c, farthest_first),
{
    let dx = p.0 as i128 - c.0 as i128;
    let dy = p.1 as i128 - c.1 as i128;
    assert(-0x1_0000_0000 <= dx <= 0x1_0000_0000);
    assert(-0x1_0000_0000 <= dy <= 0x1_0000_0000);
    assert(0 <= dx * dx <= 0x1_0000_0000_0000_0000) by (nonlinear_arith)
        requires
            -0x1_0000_0000 <= dx <= 0x1_0000_0000,
    ;
    assert(0 <= dy * dy <= 0x1_0000_0000_0000_0000) by (nonlinear_arith)
        requires
            -0x1_0000_0000 <= dy <= 0x1_0000_0000,
    ;
    let d = dx * dx + dy * dy;
    if farthest_first {
        -d
    } else {
        d
    }
}

proof fn lemma_insert_at(s: Seq<LandPoint>, x: LandPoint, c: LandPoint, f: bool, j: int)
    requires
        0 <= j <= s.len(),
        j > 0 ==> distance_key(s[j - 1], c, f) <= distance_key(x, c, f),
        forall|k: int| j <= k < s.len() ==> distance_key(s[k], c, f) > distance_key(x, c, f),
    ensures
        insert_by_key(s, x, c, f) == s.subrange(0, j).push(x) + s.subrange(j, s.len() as int),
    decreases s.len(),
{
    if j == s.len() {
        assert(s.subrange(0, j) =~= s);
        assert(s.push(x) =~= s.subrange(0, j).push(x) + s.subrange(j, s.len() as int));
    } else {
        let t = s.drop_last();
        assert(distance_key(s.last(), c, f) > distance_key(x, c, f));
        lemma_insert_at(t, x, c, f, j);
        assert(t.subrange(0, j) =~= s.subrange(0, j));
        assert((t.subrange(0, j).push(x) + t.subrange(j, t.len() as int)).push(s.last())
            =~= s.subrange(0, j).push(x) + s.subrange(j, s.len() as int));
    }
}

/// Sorts `points` stably by distance to `c`, nearest first or farthest
/// first.
fn sort_by_distance(points: &mut Vec<LandPoint>, c: LandPoint, farthest_first: bool)
    ensures
        final(points)@ == sort_by_distance_spec(old(points)@, c, farthest_first),
{
    let ghost input = points@;
    let mut sorted: Vec<LandPoint> = Vec::new();
    let mut i: usize = 0;
    assert(input.subrange(0, 0) =~= Seq::<LandPoint>::empty());
    while i < points.len()
        invariant
            points@ == input,
            i <= input.len(),
            sorted@ == sort_by_distance_spec(input.subrange(0, i as int), c, farthest_first),
        decreases input.len() - i,
    {
        let x = points[i];
        let kx = distance_key_of(x, c, farthest_first);
        let mut j: usize = sorted.len();
        while j > 0 && distance_key_of(sorted[j - 1], c, farthest_first) > kx
            invariant
                j <= sorted@.len(),
                kx == distance_key(x, c, farthest_first),
                forall|k: int| j <= k < sorted@.len() ==> distance_key(sorted@[k], c, farthest_first) > kx,
            decreases j,
        {
            j = j - 1;
        }
        proof {
            lemma_insert_at(sorted@, x, c, farthest_first, j as int);
            assert(input.subrange(0, i + 1).drop_last() =~= input.subrange(0, i as int));
            assert(input.subrange(0, i + 1).last() == x);
        }
        let ghost before = sorted@;
        sorted.insert(j, x);
        assert(sorted@ =~= before.subrange(0, j as int).push(x) + before.subrange(j as int, before.len() as int));
        i = i + 1;
    }
    assert(input.subrange(0, i as int) =~= input);
    *points = sorted;
}

/// Sorts the seven `ponds` by distance to `c`, nearest first; ponds at equal
/// distance keep their order.
pub fn sort_ponds(ponds: &mut Vec<LandPoint>, c: LandPoint)
    requires
        old(ponds)@.len() == 7,
    ensures
        final(ponds)@ == sort_by_distance_spec(old(ponds)@, c, false),
{
    sort_by_distance(ponds, c, false);
}

/// Removes from the eight `ponds` the one nearest to `c`: of several at the
/// same least distance, the last. The others are left sorted from the
/// farthest, with ponds at equal distance in their order.
pub fn remove_road_pond(ponds: &mut Vec<LandPoint>, c: LandPoint)
    requires
        old(ponds)@.len() == 8,
    ensures
        final(ponds)@ == sort_by_distance_spec(old(ponds)@, c, true).drop_last(),
{
    sort_by_distance(ponds, c, true);
    proof {
        lemma_sort_len(old(ponds)@, c, true);
    }
    ponds.pop();
}

proof fn lemma_insert_len(s: Seq<LandPoint>, x: LandPoint, c: LandPoint, f: bool)
    ensures
        insert_by_key(s, x, c, f).len() == s.len() + 1,
    decreases s.len(),
{
    if s.len() > 0 {
        lemma_insert_len(s.drop_last(), x, c, f);
    }
}

proof fn lemma_sort_len(s: Seq<LandPoint>, c: LandPoint, f: bool)
    ensures
        sort_by_distance_spec(s, c, f).len() == s.len(),
    decreases s.len(),
{
    if s.len() > 0 {
        lemma_sort_len(s.drop_last(), c, f);
        lemma_insert_len(sort_by_distance_spec(s.drop_last(), c, f), s.last(), c, f);
    }
}

/// The keyword that opens the branch of `slot` in a chain over the slots:
/// `if` for the first slot, `elseif` for the others.
pub fn prefix_p1_slot(slot: Slot) -> (r: String)
    requires
        slot.0 < NUM_SLOTS,
    ensures
        r@ == if slot.0 == 0 { "if"@ } else { "elseif"@ },
{
    if slot.0 == 0 {
        String::from_str("if")
    } else {
        String::from_str("elseif")
    }
}

/// `v` brought into `1..=98`.
pub open spec fn clamp_spec(v: int) -> int {
    if v < 1 {
        1
    } else if v > 98 {
        98
    } else {
        v
    }
}

fn clamp(v: i64) -> (r: i64)
    ensures
        r == clamp_spec(v as int),
{
    if v < 1 {
        1
    } else if v > 98 {
        98
    } else {
        v
    }
}

/// The start of a random land position.
pub const RND_POS_HEAD: &'static str = "land_position rnd(";

/// The words between the two ranges of a random land position.
pub const RND_POS_MIDDLE: &'static str = ") rnd(";

/// The line that places a land at a random position within one tile of
/// `(x, y)`, each bound brought into `1..=98`.
pub open spec fn rnd_pos_spec(x: int, y: int) -> Seq<char> {
    RND_POS_HEAD@ + decimal(clamp_spec(x - 1) as nat) + seq![','] + decimal(
        clamp_spec(x + 1) as nat,
    ) + RND_POS_MIDDLE@ + decimal(clamp_spec(y - 1) as nat) + seq![','] + decimal(
        clamp_spec(y + 1) as nat,
    ) + seq![')']
}

/// Returns `land_position rnd(x-1,x+1) rnd(y-1,y+1)`, with each bound
/// brought into `1..=98`.
pub fn rnd_pos(x: i32, y: i32) -> (r: String)
    ensures
        r@ == rnd_pos_spec(x as int, y as int),
{
    let mut out: Vec<char> = Vec::new();
    push_str(&mut out, RND_POS_HEAD);
    push_decimal(&mut out, clamp(x as i64 - 1) as u128);
    out.push(',');
    push_decimal(&mut out, clamp(x as i64 + 1) as u128);
    push_str(&mut out, RND_POS_MIDDLE);
    push_decimal(&mut out, clamp(y as i64 - 1) as u128);
    out.push(',');
    push_decimal(&mut out, clamp(y as i64 + 1) as u128);
    out.push(')');
    string_of(&out)
}

/// The start of a forest land of Arena, before its position.
pub const FOREST_LAND_HEAD: &'static str = "create_land { land_position ";

/// The rest of a forest land of Arena, after its position.
pub const FOREST_LAND_TAIL: &'static str = " terrain_type OUTSIDE_FOREST base_size 4 number_of_tiles 128 clumping_factor 40 }";

/// The one-line forest land of Arena at `(x, y)`.
pub open spec fn land_string_spec(x: nat, y: nat) -> Seq<char> {
    FOREST_LAND_HEAD@ + decimal(x) + seq![' '] + decimal(y) + FOREST_LAND_TAIL@
}

/// Returns the one-line `create_land` command of an Arena forest at `p`.
pub fn land_string(p: &(u32, u32)) -> (r: String)
    ensures
        r@ == land_string_spec(p.0 as nat, p.1 as nat),
{
    let mut out: Vec<char> = Vec::new();
    push_str(&mut out, FOREST_LAND_HEAD);
    push_decimal(&mut out, p.0 as u128);
    out.push(' ');
    push_decimal(&mut out, p.1 as u128);
    push_str(&mut out, FOREST_LAND_TAIL);
    string_of(&out)
}

/// `v` tiles of the 119 tiles of a map side, as a percentage rounded to the
/// nearest whole number (no such value lies halfway between two).
pub open spec fn tiles_to_percent(v: nat) -> nat {
    (200 * v + 119) / 238
}

fn percent_of_tiles(v: u32) -> (r: u32)
    requires
        v <= 1000,
    ensures
        r == tiles_to_percent(v as nat),
{
    (200 * v + 119) / 238
}

/// The first tile, from the map edge, where a Town Center may stand.
pub const SIDE_DIST: u32 = 20;

/// The first tile, from the map edge, past the band where a Town Center may
/// stand.
pub const MID_DIST: u32 = 30;

/// The tile range of the `index`-th of the five positions along a side.
pub open spec fn slot_tiles(index: nat) -> (nat, nat) {
    if index == 0 {
        (30, 41)
    } else if index == 1 {
        (42, 53)
    } else if index == 2 {
        (54, 65)
    } else if index == 3 {
        (66, 77)
    } else {
        (78, 89)
    }
}

/// The text `rnd(a,b)`.
pub open spec fn rnd_spec(a: nat, b: nat) -> Seq<char> {
    "rnd("@ + decimal(a) + seq![','] + decimal(b) + seq![')']
}

/// The `land_position` line of a player land in `slot`: the slots run
/// clockwise, five along each side, starting at the top left; along a side
/// the position is random within the slot's range, and across it within the
/// band from 20 to 30 tiles off the edge.
pub open spec fn slot_position_spec(slot: nat) -> Seq<char> {
    let i = slot % 5;
    let index = if slot >= 10 { (4 - i) as nat } else { i };
    let low = tiles_to_percent(slot_tiles(index).0);
    let high = tiles_to_percent(slot_tiles(index).1);
    let side = tiles_to_percent(SIDE_DIST as nat);
    let mid = tiles_to_percent(MID_DIST as nat);
    let end_side = (100 - side) as nat;
    let end_mid = (100 - mid) as nat;
    let along = rnd_spec(low, high);
    "land_position "@ + if slot / 5 == 0 {
        along + seq![' '] + rnd_spec(side, mid)
    } else if slot / 5 == 1 {
        rnd_spec(end_mid, end_side) + seq![' '] + along
    } else if slot / 5 == 2 {
        along + seq![' '] + rnd_spec(end_mid, end_side)
    } else {
        rnd_spec(side, mid) + seq![' '] + along
    }
}

fn push_rnd(out: &mut Vec<char>, a: u32, b: u32)
    ensures
        final(out)@ == old(out)@ + rnd_spec(a as nat, b as nat),
{
    let ghost o = out@;
    push_str(out, "rnd(");
    push_decimal(out, a as u128);
    out.push(',');
    push_decimal(out, b as u128);
    out.push(')');
    assert(out@ =~= o + rnd_spec(a as nat, b as nat));
}

/// Returns the `land_position` line of a player land in `slot`.
pub fn slot_to_position(slot: Slot) -> (r: String)
    requires
        slot.0 < NUM_SLOTS,
    ensures
        r@ == slot_position_spec(slot.0 as nat),
{
    let i = slot.0 % 5;
    let index = if slot.0 >= 10 { 4 - i } else { i };
    let (lo_tiles, hi_tiles): (u32, u32) = if index == 0 {
        (30, 41)
    } else if index == 1 {
        (42, 53)
    } else if index == 2 {
        (54, 65)
    } else if index == 3 {
        (66, 77)
    } else {
        (78, 89)
    };
    let low = percent_of_tiles(lo_tiles);
    let high = percent_of_tiles(hi_tiles);
    let side = percent_of_tiles(SIDE_DIST);
    let mid = percent_of_tiles(MID_DIST);
    let end_side = 100 - side;
    let end_mid = 100 - mid;
    let mut out: Vec<char> = Vec::new();
    push_str(&mut out, "land_position ");
    let ghost o = out@;
    let quarter = slot.0 / 5;
    if quarter == 0 {
        push_rnd(&mut out, low, high);
        out.push(' ');
        push_rnd(&mut out, side, mid);
    } else if quarter == 1 {
        push_rnd(&mut out, end_mid, end_side);
        out.push(' ');
        push_rnd(&mut out, low, high);
    } else if quarter == 2 {
        push_rnd(&mut out, low, high);
        out.push(' ');
        push_rnd(&mut out, end_mid, end_side);
    } else {
        push_rnd(&mut out, side, mid);
        out.push(' ');
        push_rnd(&mut out, low, high);
    }
    assert(out@ =~= slot_position_spec(slot.0 as nat));
    string_of(&out)
}

/// The label line `{if or elseif} P1_SLOT_{k}` of slot `k`.
pub open spec fn p1_slot_line(k: nat) -> Seq<char> {
    (if k == 0 { "if"@ } else { "elseif"@ }) + " P1_SLOT_"@ + decimal(k)
}

fn p1_slot_line_of(k: usize) -> (r: String)
    requires
        k < NUM_SLOTS,
    ensures
        r@ == p1_slot_line(k as nat),
{
    let prefix = prefix_p1_slot(Slot(k));
    let mut out: Vec<char> = Vec::new();
    push_str(&mut out, prefix.as_str());
    push_str(&mut out, " P1_SLOT_");
    push_decimal(&mut out, k as u128);
    string_of(&out)
}

/// The lines of the first `n` slots of [`p1_position`].
pub open spec fn p1_position_lines(n: nat) -> Seq<Seq<char>>
    decreases n,
{
    if n == 0 {
        Seq::empty()
    } else {
        p1_position_lines((n - 1) as nat) + seq![p1_slot_line((n - 1) as nat), slot_position_spec((n - 1) as nat)]
    }
}

/// The lines of [`p1_position`].
pub open spec fn p1_position_spec() -> Seq<Seq<char>> {
    p1_position_lines(NUM_SLOTS as nat) + seq!["endif"@]
}

/// Returns the conditional chain that places Player 1's land in the slot
/// whose label is defined.
pub fn p1_position() -> (r: Vec<String>)
    ensures
        views(r@) == p1_position_spec(),
{
    let mut lines: Vec<String> = Vec::new();
    let mut k: usize = 0;
    assert(views(lines@) =~= p1_position_lines(0));
    while k < NUM_SLOTS
        invariant
            k <= NUM_SLOTS,
            views(lines@) == p1_position_lines(k as nat),
        decreases NUM_SLOTS - k,
    {
        let ghost l0 = views(lines@);
        let a = p1_slot_line_of(k);
        let b = slot_to_position(Slot(k));
        lines.push(a);
        lines.push(b);
        assert(views(lines@) =~= l0.push(a@).push(b@));
        assert(views(lines@) =~= p1_position_lines((k + 1) as nat));
        k = k + 1;
    }
    let ghost l1 = views(lines@);
    let e = String::from_str("endif");
    lines.push(e);
    assert(views(lines@) =~= l1.push(e@));
    lines
}

/// The number of positions where Player 2 may be, given Player 1's slot.
pub const NUM_P2_POSITIONS: usize = 7;

/// How many slots past Player 1's the first position of Player 2 lies.
pub const P2_POS_OFFSET: usize = 7;

/// The branch of Player 2's position `j` when Player 1 is in slot `i`: its
/// label line and its `land_position` line, as one text.
pub open spec fn p2_branch(i: nat, j: nat) -> Seq<char> {
    (if j == 0 { "if"@ } else { "elseif"@ }) + " P2_POS_"@ + decimal(j) + seq!['\n']
        + slot_position_spec(((i + P2_POS_OFFSET + j) % (NUM_SLOTS as int)) as nat)
}

/// The lines of the first `n` positions of Player 2 when Player 1 is in
/// slot `i`.
pub open spec fn p2_branches(i: nat, n: nat) -> Seq<Seq<char>>
    decreases n,
{
    if n == 0 {
        Seq::empty()
    } else {
        p2_branches(i, (n - 1) as nat).push(p2_branch(i, (n - 1) as nat))
    }
}

/// The lines of the first `n` slots of [`p2_position`].
pub open spec fn p2_position_lines(n: nat) -> Seq<Seq<char>>
    decreases n,
{
    if n == 0 {
        Seq::empty()
    } else {
        let i = (n - 1) as nat;
        p2_position_lines(i) + seq![p1_slot_line(i)] + p2_branches(i, NUM_P2_POSITIONS as nat)
            + seq!["endif"@]
    }
}

/// The lines of [`p2_position`].
pub open spec fn p2_position_spec() -> Seq<Seq<char>> {
    p2_position_lines(NUM_SLOTS as nat) + seq!["endif"@]
}

/// Returns the conditional chains that place Player 2's land, for each slot
/// of Player 1, at one of the positions whose label is defined.
pub fn p2_position() -> (r: Vec<String>)
    ensures
        views(r@) == p2_position_spec(),
{
    let mut lines: Vec<String> = Vec::new();
    let mut i: usize = 0;
    assert(views(lines@) =~= p2_position_lines(0));
    while i < NUM_SLOTS
        invariant
            i <= NUM_SLOTS,
            views(lines@) == p2_position_lines(i as nat),
        decreases NUM_SLOTS - i,
    {
        let ghost l0 = views(lines@);
        let a = p1_slot_line_of(i);
        lines.push(a);
        let ghost l1 = views(lines@);
        assert(l1 =~= l0 + seq![a@]);
        let mut j: usize = 0;
        assert(l1 =~= l1 + p2_branches(i as nat, 0));
        while j < NUM_P2_POSITIONS
            invariant
                i < NUM_SLOTS,
                j <= NUM_P2_POSITIONS,
                views(lines@) == l1 + p2_branches(i as nat, j as nat),
            decreases NUM_P2_POSITIONS - j,
        {
            let t = Slot((i + P2_POS_OFFSET + j) % NUM_SLOTS);
            let mut out: Vec<char> = Vec::new();
            if j == 0 {
                push_str(&mut out, "if");
            } else {
                push_str(&mut out, "elseif");
            }
            push_str(&mut out, " P2_POS_");
            push_decimal(&mut out, j as u128);
            out.push('\n');
            let pos = slot_to_position(t);
            push_str(&mut out, pos.as_str());
            let ghost l2 = views(lines@);
            let line = string_of(&out);
            lines.push(line);
            assert(line@ =~= p2_branch(i as nat, j as nat));
            assert(views(lines@) =~= l2.push(line@));
            assert(views(lines@) =~= l1 + p2_branches(i as nat, (j + 1) as nat));
            j = j + 1;
        }
        let ghost l3 = views(lines@);
        let e = String::from_str("endif");
        lines.push(e);
        assert(views(lines@) =~= l3.push(e@));
        assert(views(lines@) =~= p2_position_lines((i + 1) as nat));
        i = i + 1;
    }
    let ghost l4 = views(lines@);
    let e = String::from_str("endif");
    lines.push(e);
    assert(views(lines@) =~= l4.push(e@));
    lines
}

} // verus!
