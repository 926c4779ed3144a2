//! Resolution of symbolic actor-area names to numeric identifiers.
use vstd::prelude::*;
use crate::error::PreprocessError;
use crate::text::{
    chars_of, decimal, find_char, first_index, last_index, matches_at, push_decimal, push_str,
    rfind_char, starts_with, string_of, string_of_range, views,
};

verus! {

/// The identifier given to the first name declared; later names get the
/// following numbers, clear of the numbers that scripts use themselves.
pub const ACTOR_AREA_BASE: u64 = 20000;

/// The start of a line that declares an actor area by name alone.
pub const ACTOR_AREA_DECL: &'static str = "actor_area ";

/// The start of a line that creates an actor area; its name is the word
/// before the last.
pub const CREATE_ACTOR_AREA_DECL: &'static str = "create_actor_area ";

/// The commands whose argument is an actor area.
pub const ACTOR_AREA: &'static str = "actor_area";

/// See [`ACTOR_AREA`].
pub const AVOID_ACTOR_AREA: &'static str = "avoid_actor_area";

/// See [`ACTOR_AREA`].
pub const ACTOR_AREA_TO_PLACE_IN: &'static str = "actor_area_to_place_in";

/// The command that creates an actor area.
pub const CREATE_ACTOR_AREA: &'static str = "create_actor_area";

/// What the line `l` declares: `None` when it declares no actor area,
/// `Some(None)` when it is a creation line with no name before its last
/// word, and `Some(Some(name))` otherwise.
pub open spec fn declared_name(l: Seq<char>) -> Option<Option<Seq<char>>> {
    if starts_with(l, ACTOR_AREA_DECL@) {
        Some(Some(l.skip(first_index(l, ' ') + 1)))
    } else if starts_with(l, CREATE_ACTOR_AREA_DECL@) {
        let j = last_index(l, ' ');
        if j < 0 {
            Some(None)
        } else {
            let i = last_index(l.subrange(0, j), ' ');
            if i < 0 {
                Some(None)
            } else {
                Some(Some(l.subrange(i + 1, j)))
            }
        }
    } else {
        None
    }
}

/// The names of `ls` in the order of their first declaration, after the
/// names `names` already known.
pub open spec fn collect_names(ls: Seq<Seq<char>>, names: Seq<Seq<char>>) -> Result<
    Seq<Seq<char>>,
    PreprocessError,
>
    decreases ls.len(),
{
    if ls.len() == 0 {
        Ok(names)
    } else {
        match declared_name(ls[0]) {
            None => collect_names(ls.skip(1), names),
            Some(None) => Err(PreprocessError::MalformedActorArea),
            Some(Some(x)) => collect_names(
                ls.skip(1),
                if names.contains(x) {
                    names
                } else {
                    names.push(x)
                },
            ),
        }
    }
}

/// The position of the first `x` in `names`, or -1 where there is none.
pub open spec fn name_index(names: Seq<Seq<char>>, x: Seq<char>) -> int
    decreases names.len(),
{
    if names.len() == 0 {
        -1
    } else if names.last() == x && !names.drop_last().contains(x) {
        names.len() - 1
    } else {
        name_index(names.drop_last(), x)
    }
}

/// The identifier of the name at position `k` of the table.
pub open spec fn area_id(k: int) -> nat {
    (ACTOR_AREA_BASE + k) as nat
}

/// The line `l` with its actor-area name replaced by its identifier, where
/// `l` is a command on an actor area and the name is in `names`; else `l`.
pub open spec fn substitute_line(l: Seq<char>, names: Seq<Seq<char>>) -> Seq<char> {
    let i = first_index(l, ' ');
    if i < 0 {
        l
    } else {
        let command = l.subrange(0, i);
        if command == ACTOR_AREA@ || command == AVOID_ACTOR_AREA@ || command
            == ACTOR_AREA_TO_PLACE_IN@ {
            let k = name_index(names, l.skip(i + 1));
            if k < 0 {
                l
            } else {
                command + seq![' '] + decimal(area_id(k))
            }
        } else if command == CREATE_ACTOR_AREA@ {
            let k = last_index(l, ' ');
            let j = if k < 0 { -1 } else { last_index(l.subrange(0, k), ' ') };
            if j < 0 {
                l
            } else {
                let n = name_index(names, l.subrange(j + 1, k));
                if n < 0 {
                    l
                } else {
                    l.subrange(0, j) + seq![' '] + decimal(area_id(n)) + l.skip(k)
                }
            }
        } else {
            l
        }
    }
}

/// The script with every declared actor-area name replaced by its
/// identifier in the commands on actor areas.
pub open spec fn substitute_spec(ls: Seq<Seq<char>>) -> Result<Seq<Seq<char>>, PreprocessError> {
    match collect_names(ls, Seq::empty()) {
        Ok(names) => Ok(ls.map_values(|l: Seq<char>| substitute_line(l, names))),
        Err(e) => Err(e),
    }
}

proof fn lemma_name_index(names: Seq<Seq<char>>, x: Seq<char>)
    ensures
        -1 <= name_index(names, x) < names.len(),
        name_index(names, x) >= 0 <==> names.contains(x),
        name_index(names, x) >= 0 ==> names[name_index(names, x)] == x,
        name_index(names, x) >= 0 ==> !names.subrange(0, name_index(names, x)).contains(x),
    decreases names.len(),
{
    if names.len() > 0 {
        let init = names.drop_last();
        lemma_name_index(init, x);
        if names.contains(x) {
            let w = choose|w: int| 0 <= w < names.len() && names[w] == x;
            if w < names.len() - 1 {
                assert(init[w] == x);
            }
        }
        if init.contains(x) {
            let w = choose|w: int| 0 <= w < init.len() && init[w] == x;
            assert(names[w] == x);
        }
        let k = name_index(names, x);
        if k >= 0 && k < names.len() - 1 {
            assert(names.subrange(0, k) =~= init.subrange(0, k));
        }
        if k == names.len() - 1 {
            assert(names.subrange(0, k) =~= init);
        }
    }
}

/// The position of `x` in `names`.
fn find_name(names: &Vec<String>, x: &String) -> (r: Option<usize>)
    ensures
        r matches Some(k) ==> k == name_index(views(names@), x@),
        r is None ==> name_index(views(names@), x@) == -1,
{
    let ghost ns = views(names@);
    proof {
        lemma_name_index(ns, x@);
    }
    let mut k: usize = 0;
    while k < names.len()
        invariant
            ns == views(names@),
            k <= names@.len(),
            !ns.subrange(0, k as int).contains(x@),
            -1 <= name_index(ns, x@) < ns.len(),
            name_index(ns, x@) >= 0 <==> ns.contains(x@),
            name_index(ns, x@) >= 0 ==> ns[name_index(ns, x@)] == x@,
            name_index(ns, x@) >= 0 ==> !ns.subrange(0, name_index(ns, x@)).contains(x@),
        decreases names@.len() - k,
    {
        if names[k] == *x {
            assert(ns[k as int] == x@);
            proof {
                let n = name_index(ns, x@);
                assert(ns.contains(x@));
                if n < k {
                    assert(ns.subrange(0, k as int)[n] == x@);
                } else if n > k {
                    assert(ns.subrange(0, n)[k as int] == x@);
                }
            }
            return Some(k);
        }
        assert forall|w: int| 0 <= w < k + 1 implies #[trigger] ns.subrange(0, k + 1)[w] != x@ by {
            if w < k {
                assert(ns.subrange(0, k as int)[w] == ns.subrange(0, k + 1)[w]);
            }
        }
        k = k + 1;
    }
    assert(ns.subrange(0, k as int) =~= ns);
    None
}

/// What `l` declares, as [`declared_name`] states it.
fn declared_name_of(cs: &Vec<char>) -> (r: Option<Option<String>>)
    ensures
        r matches Some(Some(x)) ==> declared_name(cs@) == Some(Some(x@)),
        r matches Some(None) ==> declared_name(cs@) == Some(None::<Seq<char>>),
        r is None ==> declared_name(cs@) is None,
{
    let decl = chars_of(ACTOR_AREA_DECL);
    let create = chars_of(CREATE_ACTOR_AREA_DECL);
    let n = cs.len();
    if matches_at(cs, &decl, 0) {
        let start = match find_char(cs, ' ') {
            Some(i) => i + 1,
            None => 0,
        };
        let name = string_of_range(cs, start, n);
        assert(cs@.subrange(start as int, n as int) =~= cs@.skip(first_index(cs@, ' ') + 1));
        Some(Some(name))
    } else if matches_at(cs, &create, 0) {
        assert(cs@.subrange(0, cs@.len() as int) =~= cs@);
        let j = match rfind_char(cs, cs.len(), ' ') {
            Some(j) => j,
            None => {
                return Some(None);
            },
        };
        match rfind_char(cs, j, ' ') {
            Some(i) => Some(Some(string_of_range(cs, i + 1, j))),
            None => Some(None),
        }
    } else {
        None
    }
}

/// The line `l` with its actor-area name replaced, as [`substitute_line`]
/// states it.
fn substitute_one(l: &String, names: &Vec<String>) -> (r: String)
    ensures
        r@ == substitute_line(l@, views(names@)),
{
    let cs = chars_of(l.as_str());
    let i = match find_char(&cs, ' ') {
        Some(i) => i,
        None => {
            return l.clone();
        },
    };
    let command = string_of_range(&cs, 0, i);
    if command == String::from_str(ACTOR_AREA) || command == String::from_str(AVOID_ACTOR_AREA)
        || command == String::from_str(ACTOR_AREA_TO_PLACE_IN) {
        let name = string_of_range(&cs, i + 1, cs.len());
        assert(cs@.subrange(i + 1, cs@.len() as int) =~= cs@.skip(i + 1));
        match find_name(names, &name) {
            None => l.clone(),
            Some(k) => {
                proof {
                    lemma_name_index(views(names@), name@);
                }
                let mut out: Vec<char> = Vec::new();
                push_str(&mut out, command.as_str());
                out.push(' ');
                push_decimal(&mut out, ACTOR_AREA_BASE as u128 + k as u128);
                assert(out@ =~= command@ + seq![' '] + decimal(area_id(k as int)));
                string_of(&out)
            },
        }
    } else if command == String::from_str(CREATE_ACTOR_AREA) {
        assert(cs@.subrange(0, cs@.len() as int) =~= cs@);
        let k = match rfind_char(&cs, cs.len(), ' ') {
            Some(k) => k,
            None => {
                return l.clone();
            },
        };
        let j = match rfind_char(&cs, k, ' ') {
            Some(j) => j,
            None => {
                return l.clone();
            },
        };
        let name = string_of_range(&cs, j + 1, k);
        match find_name(names, &name) {
            None => l.clone(),
            Some(n) => {
                proof {
                    lemma_name_index(views(names@), name@);
                }
                let mut out: Vec<char> = Vec::new();
                let front = string_of_range(&cs, 0, j);
                let back = string_of_range(&cs, k, cs.len());
                push_str(&mut out, front.as_str());
                out.push(' ');
                push_decimal(&mut out, ACTOR_AREA_BASE as u128 + n as u128);
                push_str(&mut out, back.as_str());
                assert(cs@.subrange(k as int, cs@.len() as int) =~= cs@.skip(k as int));
                assert(out@ =~= cs@.subrange(0, j as int) + seq![' '] + decimal(area_id(n as int))
                    + cs@.skip(k as int));
                string_of(&out)
            },
        }
    } else {
        l.clone()
    }
}

/// Gives each declared actor-area name an identifier, counting up from
/// [`ACTOR_AREA_BASE`] in the order of first declaration, and replaces the
/// names by their identifiers in the commands on actor areas. Names never
/// declared are left as they are.
pub fn substitute_actor_area_names(lines: Vec<String>) -> (r: Result<Vec<String>, PreprocessError>)
    ensures
        r matches Ok(v) ==> substitute_spec(views(lines@)) == Ok::<
            Seq<Seq<char>>,
            PreprocessError,
        >(views(v@)),
        r matches Err(e) ==> substitute_spec(views(lines@)) == Err::<
            Seq<Seq<char>>,
            PreprocessError,
        >(e),
{
    let ghost ls = views(lines@);
    let ghost whole = collect_names(ls, Seq::empty());
    let mut names: Vec<String> = Vec::new();
    let mut i: usize = 0;
    assert(ls.skip(0) =~= ls);
    assert(views(names@) =~= Seq::<Seq<char>>::empty());
    while i < lines.len()
        invariant
            ls == views(lines@),
            i <= lines@.len(),
            views(names@).len() <= i,
            whole == collect_names(ls, Seq::empty()),
            whole == collect_names(ls.skip(i as int), views(names@)),
        decreases lines@.len() - i,
    {
        let ghost rest = ls.skip(i as int);
        assert(rest.skip(1) =~= ls.skip(i + 1));
        assert(rest[0] == lines@[i as int]@);
        let cs = chars_of(lines[i].as_str());
        match declared_name_of(&cs) {
            None => {},
            Some(None) => {
                return Err(PreprocessError::MalformedActorArea);
            },
            Some(Some(name)) => {
                let ghost ns = views(names@);
                proof {
                    lemma_name_index(ns, name@);
                }
                match find_name(&names, &name) {
                    Some(_) => {},
                    None => {
                        names.push(name);
                        assert(views(names@) =~= ns.push(name@));
                    },
                }
            },
        }
        i = i + 1;
    }
    assert(ls.skip(i as int) =~= Seq::<Seq<char>>::empty());
    let ghost ns = views(names@);
    let mut out: Vec<String> = Vec::new();
    let mut k: usize = 0;
    while k < lines.len()
        invariant
            ls == views(lines@),
            ns == views(names@),
            ns.len() <= lines@.len(),
            k <= lines@.len(),
            views(out@) == ls.subrange(0, k as int).map_values(
                |l: Seq<char>| substitute_line(l, ns),
            ),
        decreases lines@.len() - k,
    {
        let t = substitute_one(&lines[k], &names);
        let ghost o = views(out@);
        out.push(t);
        assert(views(out@) =~= o.push(t@));
        assert(ls[k as int] == lines@[k as int]@);
        assert(views(out@) =~= ls.subrange(0, k + 1).map_values(
            |l: Seq<char>| substitute_line(l, ns),
        ));
        k = k + 1;
    }
    assert(ls.subrange(0, k as int) =~= ls);
    Ok(out)
}

proof fn lemma_collect_append(a: Seq<Seq<char>>, b: Seq<Seq<char>>, names: Seq<Seq<char>>)
    ensures
        collect_names(a + b, names) == match collect_names(a, names) {
            Ok(t) => collect_names(b, t),
            Err(e) => Err(e),
        },
    decreases a.len(),
{
    if a.len() == 0 {
        assert(a + b =~= b);
    } else {
        assert((a + b)[0] == a[0]);
        assert((a + b).skip(1) =~= a.skip(1) + b);
        match declared_name(a[0]) {
            None => lemma_collect_append(a.skip(1), b, names),
            Some(None) => {},
            Some(Some(x)) => lemma_collect_append(
                a.skip(1),
                b,
                if names.contains(x) {
                    names
                } else {
                    names.push(x)
                },
            ),
        }
    }
}

proof fn lemma_collect_extends(ls: Seq<Seq<char>>, names: Seq<Seq<char>>)
    ensures
        collect_names(ls, names) matches Ok(t) ==> t.len() >= names.len() && t.subrange(
            0,
            names.len() as int,
        ) == names,
    decreases ls.len(),
{
    if ls.len() > 0 {
        match declared_name(ls[0]) {
            None => lemma_collect_extends(ls.skip(1), names),
            Some(None) => {},
            Some(Some(x)) => {
                let n2 = if names.contains(x) {
                    names
                } else {
                    names.push(x)
                };
                lemma_collect_extends(ls.skip(1), n2);
                if let Ok(t) = collect_names(ls, names) {
                    assert(t.subrange(0, names.len() as int) =~= t.subrange(0, n2.len() as int).subrange(
                        0,
                        names.len() as int,
                    ));
                    assert(n2.subrange(0, names.len() as int) =~= names);
                }
            },
        }
    }
}

/// Distinct declared names get distinct identifiers, none below
/// [`ACTOR_AREA_BASE`]; and a name declared in the first part `a` of a
/// script keeps the identifier it got there, whatever the rest `b`
/// declares again.
pub proof fn lemma_actor_area_ids(a: Seq<Seq<char>>, b: Seq<Seq<char>>, x: Seq<char>, y: Seq<char>)
    requires
        collect_names(a + b, Seq::empty()) is Ok,
    ensures
        collect_names(a, Seq::empty()) is Ok,
        ({
            let t = collect_names(a + b, Seq::empty())->Ok_0;
            let ta = collect_names(a, Seq::empty())->Ok_0;
            &&& t.contains(x) && t.contains(y) && x != y ==> area_id(name_index(t, x)) != area_id(
                name_index(t, y),
            )
            &&& t.contains(x) ==> area_id(name_index(t, x)) >= ACTOR_AREA_BASE
            &&& ta.contains(x) ==> name_index(t, x) == name_index(ta, x)
        }),
{
    lemma_collect_append(a, b, Seq::empty());
    let t = collect_names(a + b, Seq::empty())->Ok_0;
    let ta = collect_names(a, Seq::empty())->Ok_0;
    lemma_collect_extends(b, ta);
    lemma_name_index(t, x);
    lemma_name_index(t, y);
    lemma_name_index(ta, x);
    if ta.contains(x) {
        let k = name_index(ta, x);
        assert(t.subrange(0, ta.len() as int) == ta);
        assert(t[k] == x);
        let kt = name_index(t, x);
        if kt < k {
            assert(ta[kt] == t[kt]);
            assert(ta.subrange(0, k)[kt] == x);
        } else if kt > k {
            assert(t.subrange(0, kt)[k] == x);
        }
    }
}

} // verus!
