//! Per-player duplication of object blocks flagged for every player.
use vstd::prelude::*;
use crate::error::PreprocessError;
use crate::text::{
    chars_of, decimal, eq_ignore_ascii_case, eq_ignore_ascii_case_spec, matches_at, push_decimal,
    push_str, starts_with, string_of, views,
};

verus! {

/// The start of a line that opens an object block.
pub const CREATE_OBJECT: &'static str = "create_object";

/// The line that closes an object block.
pub const BLOCK_CLOSE: &'static str = "}";

/// The flag that places an object block once for each of two players.
pub const EVERY_PLAYER: &'static str = "#SET_PLACE_FOR_EVERY_PLAYER";

/// The flag that places an object block once for each of eight players.
pub const PLACE8: &'static str = "#PLACE8";

/// The start of the line that ties a copy of a block to one land.
pub const PLACE_ON_LAND: &'static str = "place_on_specific_land_id ";

/// The line that ties a copy of a block to land `id`.
pub open spec fn land_line(id: nat) -> Seq<char> {
    PLACE_ON_LAND@ + decimal(id)
}

/// One copy of the block `obj` per land `1..=n`, in order, each closed by
/// the line tying it to its land and the closing brace.
pub open spec fn copies(obj: Seq<Seq<char>>, n: nat) -> Seq<Seq<char>>
    decreases n,
{
    if n == 0 {
        Seq::empty()
    } else {
        copies(obj, (n - 1) as nat) + obj + seq![land_line(n), BLOCK_CLOSE@]
    }
}

/// The output of the duplication pass over `ls`, given the open block
/// `obj` (empty when none is open), its flag `every` and player count `n`,
/// and the output `out` so far.
pub open spec fn objects_from(
    ls: Seq<Seq<char>>,
    obj: Seq<Seq<char>>,
    every: bool,
    n: nat,
    out: Seq<Seq<char>>,
) -> Result<Seq<Seq<char>>, PreprocessError>
    decreases ls.len(),
{
    if ls.len() == 0 {
        if obj.len() == 0 {
            Ok(out)
        } else {
            Err(PreprocessError::ObjectNotClosed)
        }
    } else {
        let l = ls[0];
        let rest = ls.skip(1);
        if obj.len() == 0 {
            if eq_ignore_ascii_case_spec(l, EVERY_PLAYER@) || eq_ignore_ascii_case_spec(l, PLACE8@) {
                Err(PreprocessError::PlayerFlagOutsideObject)
            } else if starts_with(l, CREATE_OBJECT@) {
                objects_from(rest, seq![l], every, n, out)
            } else {
                objects_from(rest, obj, every, n, out.push(l))
            }
        } else if l == BLOCK_CLOSE@ {
            objects_from(
                rest,
                Seq::empty(),
                false,
                n,
                out + if every {
                    copies(obj, n)
                } else {
                    obj.push(BLOCK_CLOSE@)
                },
            )
        } else if l == EVERY_PLAYER@ {
            objects_from(rest, obj, true, 2, out)
        } else if l == PLACE8@ {
            objects_from(rest, obj, true, 8, out)
        } else {
            objects_from(rest, obj.push(l), every, n, out)
        }
    }
}

fn push_all(out: &mut Vec<String>, new: &Vec<String>)
    ensures
        views(final(out)@) == views(old(out)@) + views(new@),
{
    let ghost o0 = views(out@);
    let mut k: usize = 0;
    while k < new.len()
        invariant
            k <= new@.len(),
            views(out@) == o0 + views(new@).subrange(0, k as int),
        decreases new@.len() - k,
    {
        let ghost o = views(out@);
        let copy = new[k].clone();
        out.push(copy);
        assert(views(out@) =~= o.push(copy@));
        assert(views(out@) =~= o0 + views(new@).subrange(0, k + 1));
        k = k + 1;
    }
    assert(views(new@).subrange(0, k as int) =~= views(new@));
}

/// Places each object block flagged for every player once per player: the
/// copy for land `k` gets a `place_on_specific_land_id k` line before its
/// closing brace. Blocks without the flag are kept as they are; the flags
/// themselves are dropped.
pub fn assign_objects(lines: Vec<String>) -> (r: Result<Vec<String>, PreprocessError>)
    ensures
        r matches Ok(v) ==> objects_from(views(lines@), Seq::empty(), false, 2, Seq::empty())
            == Ok::<Seq<Seq<char>>, PreprocessError>(views(v@)),
        r matches Err(e) ==> objects_from(views(lines@), Seq::empty(), false, 2, Seq::empty())
            == Err::<Seq<Seq<char>>, PreprocessError>(e),
{
    let ghost ls = views(lines@);
    let ghost whole = objects_from(ls, Seq::empty(), false, 2, Seq::empty());
    let mut output: Vec<String> = Vec::new();
    let mut object: Vec<String> = Vec::new();
    let mut every_player = false;
    let mut num_players: u64 = 2;
    let create = chars_of(CREATE_OBJECT);
    let mut i: usize = 0;
    assert(ls.skip(0) =~= ls);
    assert(views(output@) =~= Seq::<Seq<char>>::empty());
    assert(views(object@) =~= Seq::<Seq<char>>::empty());
    while i < lines.len()
        invariant
            ls == views(lines@),
            i <= lines@.len(),
            create@ == CREATE_OBJECT@,
            num_players == 2 || num_players == 8,
            whole == objects_from(ls, Seq::empty(), false, 2, Seq::empty()),
            whole == objects_from(
                ls.skip(i as int),
                views(object@),
                every_player,
                num_players as nat,
                views(output@),
            ),
        decreases lines@.len() - i,
    {
        let ghost rest = ls.skip(i as int);
        assert(rest.skip(1) =~= ls.skip(i + 1));
        assert(rest[0] == lines@[i as int]@);
        let line = lines[i].clone();
        let cs = chars_of(line.as_str());
        let ghost o0 = views(output@);
        let ghost b0 = views(object@);
        if object.len() == 0 {
            if eq_ignore_ascii_case(&cs, EVERY_PLAYER) || eq_ignore_ascii_case(&cs, PLACE8) {
                return Err(PreprocessError::PlayerFlagOutsideObject);
            }
            if matches_at(&cs, &create, 0) {
                object.push(line);
                assert(views(object@) =~= seq![rest[0]]);
            } else {
                output.push(line);
                assert(views(output@) =~= o0.push(rest[0]));
            }
        } else if line == String::from_str(BLOCK_CLOSE) {
            if every_player {
                let mut land_id: u64 = 1;
                assert(o0 + copies(b0, 0) =~= o0);
                while land_id <= num_players
                    invariant
                        1 <= land_id <= num_players + 1,
                        num_players == 2 || num_players == 8,
                        views(object@) == b0,
                        views(output@) == o0 + copies(b0, (land_id - 1) as nat),
                    decreases num_players + 1 - land_id,
                {
                    let ghost o1 = views(output@);
                    push_all(&mut output, &object);
                    let mut place: Vec<char> = Vec::new();
                    push_str(&mut place, PLACE_ON_LAND);
                    push_decimal(&mut place, land_id as u128);
                    let ghost o2 = views(output@);
                    let place_line = string_of(&place);
                    let close = String::from_str(BLOCK_CLOSE);
                    output.push(place_line);
                    output.push(close);
                    assert(views(output@) =~= o2.push(place_line@).push(close@));
                    assert(place_line@ == land_line(land_id as nat));
                    assert(views(output@) =~= o0 + copies(b0, land_id as nat));
                    land_id = land_id + 1;
                }
            } else {
                push_all(&mut output, &object);
                let ghost o2 = views(output@);
                let close = String::from_str(BLOCK_CLOSE);
                output.push(close);
                assert(views(output@) =~= o2.push(close@));
                assert(views(output@) =~= o0 + b0.push(BLOCK_CLOSE@));
            }
            object = Vec::new();
            every_player = false;
            assert(views(object@) =~= Seq::<Seq<char>>::empty());
        } else if line == String::from_str(EVERY_PLAYER) {
            every_player = true;
            num_players = 2;
        } else if line == String::from_str(PLACE8) {
            every_player = true;
            num_players = 8;
        } else {
            object.push(line);
            assert(views(object@) =~= b0.push(rest[0]));
        }
        i = i + 1;
    }
    assert(ls.skip(i as int) =~= Seq::<Seq<char>>::empty());
    if object.len() != 0 {
        return Err(PreprocessError::ObjectNotClosed);
    }
    Ok(output)
}

/// A line inside an object block that neither closes it nor flags it.
pub open spec fn plain_object_line(l: Seq<char>) -> bool {
    l != BLOCK_CLOSE@ && l != EVERY_PLAYER@ && l != PLACE8@
}

proof fn lemma_body_into_object(
    body: Seq<Seq<char>>,
    rest: Seq<Seq<char>>,
    obj: Seq<Seq<char>>,
    every: bool,
    n: nat,
    out: Seq<Seq<char>>,
)
    requires
        obj.len() > 0,
        forall|i: int| 0 <= i < body.len() ==> plain_object_line(#[trigger] body[i]),
    ensures
        objects_from(body + rest, obj, every, n, out) == objects_from(rest, obj + body, every, n, out),
    decreases body.len(),
{
    if body.len() == 0 {
        assert(body + rest =~= rest);
        assert(obj + body =~= obj);
    } else {
        let ls = body + rest;
        assert(ls[0] == body[0]);
        assert(plain_object_line(body[0]));
        assert(ls.skip(1) =~= body.skip(1) + rest);
        assert forall|i: int| 0 <= i < body.skip(1).len() implies plain_object_line(
            #[trigger] body.skip(1)[i],
        ) by {
            assert(body.skip(1)[i] == body[i + 1]);
        }
        lemma_body_into_object(body.skip(1), rest, obj.push(body[0]), every, n, out);
        assert(obj.push(body[0]) + body.skip(1) =~= obj + body);
    }
}

/// An object block opened by `open`, with a body of plain lines, flagged
/// for eight players and then closed, becomes eight copies of the block,
/// the `k`-th tied to land `k` by its own line, for `k` from 1 to 8 in
/// order.
pub proof fn lemma_place_eight(open: Seq<char>, body: Seq<Seq<char>>)
    requires
        starts_with(open, CREATE_OBJECT@),
        !eq_ignore_ascii_case_spec(open, EVERY_PLAYER@),
        !eq_ignore_ascii_case_spec(open, PLACE8@),
        forall|i: int| 0 <= i < body.len() ==> plain_object_line(#[trigger] body[i]),
    ensures
        objects_from(
            seq![open] + body + seq![PLACE8@, BLOCK_CLOSE@],
            Seq::empty(),
            false,
            2,
            Seq::empty(),
        ) == Ok::<Seq<Seq<char>>, PreprocessError>(copies(seq![open] + body, 8)),
{
    let tail = seq![PLACE8@, BLOCK_CLOSE@];
    let ls = seq![open] + body + tail;
    let empty = Seq::<Seq<char>>::empty();
    assert(ls[0] == open);
    assert(ls.skip(1) =~= body + tail);
    lemma_body_into_object(body, tail, seq![open], false, 2, empty);
    let obj = seq![open] + body;
    assert(tail[0] == PLACE8@);
    assert(tail.skip(1) =~= seq![BLOCK_CLOSE@]);
    assert(PLACE8@ != EVERY_PLAYER@) by {
        reveal_strlit("#PLACE8");
        reveal_strlit("#SET_PLACE_FOR_EVERY_PLAYER");
    }
    assert(PLACE8@ != BLOCK_CLOSE@) by {
        reveal_strlit("#PLACE8");
        reveal_strlit("}");
    }
    assert(seq![BLOCK_CLOSE@].skip(1) =~= empty);
    assert(seq![open].len() > 0);
    assert(objects_from(ls, empty, false, 2, empty) == objects_from(
        body + tail,
        seq![open],
        false,
        2,
        empty,
    ));
    assert(objects_from(tail, obj, false, 2, empty) == objects_from(
        seq![BLOCK_CLOSE@],
        obj,
        true,
        8,
        empty,
    ));
    assert(seq![BLOCK_CLOSE@][0] == BLOCK_CLOSE@);
    assert(objects_from(seq![BLOCK_CLOSE@], obj, true, 8, empty) == objects_from(
        empty,
        empty,
        false,
        8,
        empty + copies(obj, 8),
    ));
    assert(empty + copies(obj, 8) =~= copies(obj, 8));
}

} // verus!
