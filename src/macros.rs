//! Macro directives: recognising them in a line and replacing them by the
//! lines of the catalog.
use vstd::prelude::*;
use crate::error::PreprocessError;
use crate::text::{
    chars_of, find_char, first_index, parse_u32, parse_u32_spec, string_of_range, to_uppercase,
    upper_of, views,
};

verus! {

/// A directive of the catalog that takes no arguments.
#[derive(Clone, Copy, Debug, PartialEq, Eq, Structural)]
pub enum Macro {
    /// `#POSITION_LABELS`
    PositionLabels,
    /// `#POSITION_P1`
    PositionP1,
    /// `#POSITION_P2`
    PositionP2,
    /// `#SQUARE_AVOID_CLIFFS`
    SquareAvoidCliffs,
    /// `#ROCKGEN`
    RockGen,
    /// `#MKCONSTS`
    MkConsts,
    /// `#SETPHATTR`
    SetPhAttr,
    /// `#SETPHATTR4SEASONS`
    SetPhAttr4Seasons,
    /// `#TCCENTER`
    TcCenter,
    /// `#TCBOXES`
    TcBoxes,
    /// `#TCMULTIBOXES`
    TcMultiBoxes,
    /// `#VISION`
    Vision,
    /// `#TC9VILS`
    Tc9Vils,
    /// `#TC9VILSZEWALL`
    Tc9VilsZeWall,
    /// `#TCMULTI9VILS`
    TcMulti9Vils,
    /// `#HOUSEGAP3`
    HouseGap3,
    /// `#MULTIHOUSES`
    MultiHouses,
    /// `#HUTGAP3`
    HutGap3,
    /// `#STRAGGLER9VILS`
    Straggler9Vils,
    /// `#STRAGGLER9VILSSOCOTRA`
    Straggler9VilsSocotra,
    /// `#MULTISTRAGGLER9VILS`
    MultiStraggler9Vils,
    /// `#OBJECTS9VILS`
    Objects9Vils,
    /// `#OBJECTS9VILSZEWALL`
    Objects9VilsZeWall,
    /// `#ARENACIRCLES2V2`
    ArenaCircles2v2,
    /// `#DIRLABELS`
    DirLabels,
    /// `#SNAKELANDS`
    SnakeLands,
    /// `#SNAKEBORDERS`
    SnakeBorders,
    /// `#ARENALANDS`
    ArenaLands,
    /// `#FOURSEASONSLANDS`
    FourSeasonsLands,
    /// `#FOURSEASONSLAKES`
    FourSeasonsLakes,
    /// `#ARENA_CIRCLE_GAPS`
    ArenaCircleGaps,
    /// `#ARENA_PLAYERS_GAPS`
    ArenaPlayersGaps,
    /// `#BFLANDS`
    BfLands,
}

/// A directive of the catalog that takes a radius and an angle, written
/// `NAME(radius,angle)`.
#[derive(Clone, Copy, Debug, PartialEq, Eq, Structural)]
pub enum ArgMacro {
    /// `#CIRCLE_LABELS`
    CircleLabels,
    /// `#CIRCLE_POSITION_P1`
    CirclePositionP1,
    /// `#CIRCLE_POSITION_P2`
    CirclePositionP2,
    /// `#SQUARE_LABELS`
    SquareLabels,
    /// `#SQUARE_POSITION_P1`
    SquarePositionP1,
    /// `#SQUARE_POSITION_P2`
    SquarePositionP2,
    /// `#MIGRA_LABELS`
    MigraLabels,
    /// `#MIGRA_POSITION_P1`
    MigraPositionP1,
    /// `#MIGRA_POSITION_P2`
    MigraPositionP2,
}

/// The directive of the catalog named `name`, which takes no arguments.
pub open spec fn macro_named(name: Seq<char>) -> Option<Macro> {
    if name == "#POSITION_LABELS"@ {
        Some(Macro::PositionLabels)
    } else if name == "#POSITION_P1"@ {
        Some(Macro::PositionP1)
    } else if name == "#POSITION_P2"@ {
        Some(Macro::PositionP2)
    } else if name == "#SQUARE_AVOID_CLIFFS"@ {
        Some(Macro::SquareAvoidCliffs)
    } else if name == "#ROCKGEN"@ {
        Some(Macro::RockGen)
    } else if name == "#MKCONSTS"@ {
        Some(Macro::MkConsts)
    } else if name == "#SETPHATTR"@ {
        Some(Macro::SetPhAttr)
    } else if name == "#SETPHATTR4SEASONS"@ {
        Some(Macro::SetPhAttr4Seasons)
    } else if name == "#TCCENTER"@ {
        Some(Macro::TcCenter)
    } else if name == "#TCBOXES"@ {
        Some(Macro::TcBoxes)
    } else if name == "#TCMULTIBOXES"@ {
        Some(Macro::TcMultiBoxes)
    } else if name == "#VISION"@ {
        Some(Macro::Vision)
    } else if name == "#TC9VILS"@ {
        Some(Macro::Tc9Vils)
    } else if name == "#TC9VILSZEWALL"@ {
        Some(Macro::Tc9VilsZeWall)
    } else if name == "#TCMULTI9VILS"@ {
        Some(Macro::TcMulti9Vils)
    } else if name == "#HOUSEGAP3"@ {
        Some(Macro::HouseGap3)
    } else if name == "#MULTIHOUSES"@ {
        Some(Macro::MultiHouses)
    } else if name == "#HUTGAP3"@ {
        Some(Macro::HutGap3)
    } else if name == "#STRAGGLER9VILS"@ {
        Some(Macro::Straggler9Vils)
    } else if name == "#STRAGGLER9VILSSOCOTRA"@ {
        Some(Macro::Straggler9VilsSocotra)
    } else if name == "#MULTISTRAGGLER9VILS"@ {
        Some(Macro::MultiStraggler9Vils)
    } else if name == "#OBJECTS9VILS"@ {
        Some(Macro::Objects9Vils)
    } else if name == "#OBJECTS9VILSZEWALL"@ {
        Some(Macro::Objects9VilsZeWall)
    } else if name == "#ARENACIRCLES2V2"@ {
        Some(Macro::ArenaCircles2v2)
    } else if name == "#DIRLABELS"@ {
        Some(Macro::DirLabels)
    } else if name == "#SNAKELANDS"@ {
        Some(Macro::SnakeLands)
    } else if name == "#SNAKEBORDERS"@ {
        Some(Macro::SnakeBorders)
    } else if name == "#ARENALANDS"@ {
        Some(Macro::ArenaLands)
    } else if name == "#FOURSEASONSLANDS"@ {
        Some(Macro::FourSeasonsLands)
    } else if name == "#FOURSEASONSLAKES"@ {
        Some(Macro::FourSeasonsLakes)
    } else if name == "#ARENA_CIRCLE_GAPS"@ {
        Some(Macro::ArenaCircleGaps)
    } else if name == "#ARENA_PLAYERS_GAPS"@ {
        Some(Macro::ArenaPlayersGaps)
    } else if name == "#BFLANDS"@ {
        Some(Macro::BfLands)
    } else {
        None
    }
}

/// Returns the directive of the catalog named `name`, which takes no
/// arguments.
pub fn find_macro(name: &String) -> (r: Option<Macro>)
    ensures
        r == macro_named(name@),
{
    if *name == String::from_str("#POSITION_LABELS") {
        Some(Macro::PositionLabels)
    } else if *name == String::from_str("#POSITION_P1") {
        Some(Macro::PositionP1)
    } else if *name == String::from_str("#POSITION_P2") {
        Some(Macro::PositionP2)
    } else if *name == String::from_str("#SQUARE_AVOID_CLIFFS") {
        Some(Macro::SquareAvoidCliffs)
    } else if *name == String::from_str("#ROCKGEN") {
        Some(Macro::RockGen)
    } else if *name == String::from_str("#MKCONSTS") {
        Some(Macro::MkConsts)
    } else if *name == String::from_str("#SETPHATTR") {
        Some(Macro::SetPhAttr)
    } else if *name == String::from_str("#SETPHATTR4SEASONS") {
        Some(Macro::SetPhAttr4Seasons)
    } else if *name == String::from_str("#TCCENTER") {
        Some(Macro::TcCenter)
    } else if *name == String::from_str("#TCBOXES") {
        Some(Macro::TcBoxes)
    } else if *name == String::from_str("#TCMULTIBOXES") {
        Some(Macro::TcMultiBoxes)
    } else if *name == String::from_str("#VISION") {
        Some(Macro::Vision)
    } else if *name == String::from_str("#TC9VILS") {
        Some(Macro::Tc9Vils)
    } else if *name == String::from_str("#TC9VILSZEWALL") {
        Some(Macro::Tc9VilsZeWall)
    } else if *name == String::from_str("#TCMULTI9VILS") {
        Some(Macro::TcMulti9Vils)
    } else if *name == String::from_str("#HOUSEGAP3") {
        Some(Macro::HouseGap3)
    } else if *name == String::from_str("#MULTIHOUSES") {
        Some(Macro::MultiHouses)
    } else if *name == String::from_str("#HUTGAP3") {
        Some(Macro::HutGap3)
    } else if *name == String::from_str("#STRAGGLER9VILS") {
        Some(Macro::Straggler9Vils)
    } else if *name == String::from_str("#STRAGGLER9VILSSOCOTRA") {
        Some(Macro::Straggler9VilsSocotra)
    } else if *name == String::from_str("#MULTISTRAGGLER9VILS") {
        Some(Macro::MultiStraggler9Vils)
    } else if *name == String::from_str("#OBJECTS9VILS") {
        Some(Macro::Objects9Vils)
    } else if *name == String::from_str("#OBJECTS9VILSZEWALL") {
        Some(Macro::Objects9VilsZeWall)
    } else if *name == String::from_str("#ARENACIRCLES2V2") {
        Some(Macro::ArenaCircles2v2)
    } else if *name == String::from_str("#DIRLABELS") {
        Some(Macro::DirLabels)
    } else if *name == String::from_str("#SNAKELANDS") {
        Some(Macro::SnakeLands)
    } else if *name == String::from_str("#SNAKEBORDERS") {
        Some(Macro::SnakeBorders)
    } else if *name == String::from_str("#ARENALANDS") {
        Some(Macro::ArenaLands)
    } else if *name == String::from_str("#FOURSEASONSLANDS") {
        Some(Macro::FourSeasonsLands)
    } else if *name == String::from_str("#FOURSEASONSLAKES") {
        Some(Macro::FourSeasonsLakes)
    } else if *name == String::from_str("#ARENA_CIRCLE_GAPS") {
        Some(Macro::ArenaCircleGaps)
    } else if *name == String::from_str("#ARENA_PLAYERS_GAPS") {
        Some(Macro::ArenaPlayersGaps)
    } else if *name == String::from_str("#BFLANDS") {
        Some(Macro::BfLands)
    } else {
        None
    }
}

/// The directive of the catalog named `name`, which takes arguments.
pub open spec fn arg_macro_named(name: Seq<char>) -> Option<ArgMacro> {
    if name == "#CIRCLE_LABELS"@ {
        Some(ArgMacro::CircleLabels)
    } else if name == "#CIRCLE_POSITION_P1"@ {
        Some(ArgMacro::CirclePositionP1)
    } else if name == "#CIRCLE_POSITION_P2"@ {
        Some(ArgMacro::CirclePositionP2)
    } else if name == "#SQUARE_LABELS"@ {
        Some(ArgMacro::SquareLabels)
    } else if name == "#SQUARE_POSITION_P1"@ {
        Some(ArgMacro::SquarePositionP1)
    } else if name == "#SQUARE_POSITION_P2"@ {
        Some(ArgMacro::SquarePositionP2)
    } else if name == "#MIGRA_LABELS"@ {
        Some(ArgMacro::MigraLabels)
    } else if name == "#MIGRA_POSITION_P1"@ {
        Some(ArgMacro::MigraPositionP1)
    } else if name == "#MIGRA_POSITION_P2"@ {
        Some(ArgMacro::MigraPositionP2)
    } else {
        None
    }
}

/// Returns the directive of the catalog named `name`, which takes
/// arguments.
pub fn find_arg_macro(name: &String) -> (r: Option<ArgMacro>)
    ensures
        r == arg_macro_named(name@),
{
    if *name == String::from_str("#CIRCLE_LABELS") {
        Some(ArgMacro::CircleLabels)
    } else if *name == String::from_str("#CIRCLE_POSITION_P1") {
        Some(ArgMacro::CirclePositionP1)
    } else if *name == String::from_str("#CIRCLE_POSITION_P2") {
        Some(ArgMacro::CirclePositionP2)
    } else if *name == String::from_str("#SQUARE_LABELS") {
        Some(ArgMacro::SquareLabels)
    } else if *name == String::from_str("#SQUARE_POSITION_P1") {
        Some(ArgMacro::SquarePositionP1)
    } else if *name == String::from_str("#SQUARE_POSITION_P2") {
        Some(ArgMacro::SquarePositionP2)
    } else if *name == String::from_str("#MIGRA_LABELS") {
        Some(ArgMacro::MigraLabels)
    } else if *name == String::from_str("#MIGRA_POSITION_P1") {
        Some(ArgMacro::MigraPositionP1)
    } else if *name == String::from_str("#MIGRA_POSITION_P2") {
        Some(ArgMacro::MigraPositionP2)
    } else {
        None
    }
}

/// The lines of the directive `m` where this library computes them; `None`
/// for the directives whose geometry needs floating-point arithmetic.
pub open spec fn library_lines(m: Macro) -> Option<Seq<Seq<char>>> {
    match m {
        Macro::PositionLabels => Some(crate::landgen::define_labels_spec()),
        Macro::PositionP1 => Some(crate::landgen::p1_position_spec()),
        Macro::PositionP2 => Some(crate::landgen::p2_position_spec()),
        Macro::RockGen => Some(crate::landgen::rock_border_spec()),
        Macro::MkConsts => Some(crate::actorgen::make_constants_spec()),
        Macro::SetPhAttr => Some(crate::actorgen::set_placeholder_attributes_spec()),
        Macro::SetPhAttr4Seasons => Some(crate::actorgen::set_placeholder_attributes_four_seasons_spec()),
        Macro::TcCenter => Some(crate::actorgen::tc_center_spec()),
        Macro::TcBoxes => Some(crate::actorgen::tc_boxes_spec()),
        Macro::TcMultiBoxes => Some(crate::actorgen::tc_multiboxes_spec()),
        Macro::Vision => Some(crate::actorgen::vision_spec()),
        Macro::Tc9Vils => Some(crate::actorgen::vils_9_tc_spec()),
        Macro::Tc9VilsZeWall => Some(crate::actorgen::vils_9_tc_ze_wall_spec()),
        Macro::TcMulti9Vils => Some(crate::actorgen::multi_vils_9_tc_spec()),
        Macro::HouseGap3 => Some(crate::actorgen::house_gap_3_spec()),
        Macro::MultiHouses => Some(crate::actorgen::multi_houses_spec()),
        Macro::HutGap3 => Some(crate::actorgen::hut_gap_3_spec()),
        Macro::Straggler9Vils => Some(crate::actorgen::vils_9_straggler_spec()),
        Macro::Straggler9VilsSocotra => Some(crate::actorgen::vils_9_straggler_socotra_spec()),
        Macro::MultiStraggler9Vils => Some(crate::actorgen::multi_stragglers_spec()),
        Macro::Objects9Vils => Some(crate::actorgen::objects_9_vils_spec()),
        Macro::Objects9VilsZeWall => Some(crate::actorgen::objects_9_vils_ze_wall_spec()),
        Macro::DirLabels => Some(crate::landgen::direction_labels_spec()),
        Macro::SnakeBorders => Some(crate::landgen::snake_borders_spec()),
        Macro::FourSeasonsLands => Some(crate::landgen::four_seasons_lands_spec()),
        Macro::FourSeasonsLakes => Some(crate::landgen::four_seasons_lakes_spec()),
        _ => None,
    }
}

/// Returns the lines of the directive `m` where this library computes them.
pub fn expand_macro(m: Macro) -> (r: Option<Vec<String>>)
    ensures
        r matches Some(v) ==> library_lines(m) == Some(views(v@)),
        r is None ==> library_lines(m) is None,
{
    match m {
        Macro::PositionLabels => Some(crate::landgen::define_labels()),
        Macro::PositionP1 => Some(crate::landgen::p1_position()),
        Macro::PositionP2 => Some(crate::landgen::p2_position()),
        Macro::RockGen => Some(crate::landgen::rock_border()),
        Macro::MkConsts => Some(crate::actorgen::make_constants()),
        Macro::SetPhAttr => Some(crate::actorgen::set_placeholder_attributes()),
        Macro::SetPhAttr4Seasons => Some(crate::actorgen::set_placeholder_attributes_four_seasons()),
        Macro::TcCenter => Some(crate::actorgen::tc_center()),
        Macro::TcBoxes => Some(crate::actorgen::tc_boxes()),
        Macro::TcMultiBoxes => Some(crate::actorgen::tc_multiboxes()),
        Macro::Vision => Some(crate::actorgen::vision()),
        Macro::Tc9Vils => Some(crate::actorgen::vils_9_tc()),
        Macro::Tc9VilsZeWall => Some(crate::actorgen::vils_9_tc_ze_wall()),
        Macro::TcMulti9Vils => Some(crate::actorgen::multi_vils_9_tc()),
        Macro::HouseGap3 => Some(crate::actorgen::house_gap_3()),
        Macro::MultiHouses => Some(crate::actorgen::multi_houses()),
        Macro::HutGap3 => Some(crate::actorgen::hut_gap_3()),
        Macro::Straggler9Vils => Some(crate::actorgen::vils_9_straggler()),
        Macro::Straggler9VilsSocotra => Some(crate::actorgen::vils_9_straggler_socotra()),
        Macro::MultiStraggler9Vils => Some(crate::actorgen::multi_stragglers()),
        Macro::Objects9Vils => Some(crate::actorgen::objects_9_vils()),
        Macro::Objects9VilsZeWall => Some(crate::actorgen::objects_9_vils_ze_wall()),
        Macro::DirLabels => Some(crate::landgen::direction_labels()),
        Macro::SnakeBorders => Some(crate::landgen::snake_borders()),
        Macro::FourSeasonsLands => Some(crate::landgen::four_seasons_lands()),
        Macro::FourSeasonsLakes => Some(crate::landgen::four_seasons_lakes()),
        _ => None,
    }
}


/// What a line of a script is to the macro expander.
#[derive(Debug)]
pub enum Directive {
    /// A line that is kept as it is.
    Literal,
    /// A directive without arguments.
    Plain(Macro),
    /// A directive with its radius, as written, and its angle.
    WithArgs(ArgMacro, String, u32),
}

/// The mathematical view of a [`Directive`].
pub enum DirectiveView {
    /// See [`Directive::Literal`].
    Literal,
    /// See [`Directive::Plain`].
    Plain(Macro),
    /// See [`Directive::WithArgs`].
    WithArgs(ArgMacro, Seq<char>, u32),
}

impl View for Directive {
    type V = DirectiveView;

    open spec fn view(&self) -> DirectiveView {
        match self {
            Directive::Literal => DirectiveView::Literal,
            Directive::Plain(m) => DirectiveView::Plain(*m),
            Directive::WithArgs(m, radius, angle) => DirectiveView::WithArgs(*m, radius@, *angle),
        }
    }
}

/// What the line `l` is to the macro expander. With a `(`, the text before
/// it names a directive with arguments, compared in upper case; its radius
/// runs from the `(` to the first `,`, and its angle from there to the first
/// `)`. A missing `,` or `)`, or a name that is no such directive, leaves
/// the line literal. Without a `(`, the whole line, in upper case, names a
/// directive without arguments, or the line is literal.
pub open spec fn directive_spec(l: Seq<char>) -> Result<DirectiveView, PreprocessError> {
    let i = first_index(l, '(');
    if i >= 0 {
        match arg_macro_named(upper_of(l.subrange(0, i))) {
            None => Ok(DirectiveView::Literal),
            Some(m) => {
                let j = first_index(l, ',');
                let k = first_index(l, ')');
                if j < 0 || k < 0 {
                    Ok(DirectiveView::Literal)
                } else if j <= i || k <= j {
                    Err(PreprocessError::MalformedMacroArguments)
                } else {
                    match parse_u32_spec(l.subrange(j + 1, k)) {
                        None => Err(PreprocessError::MalformedMacroArguments),
                        Some(angle) => Ok(DirectiveView::WithArgs(m, l.subrange(i + 1, j), angle)),
                    }
                }
            },
        }
    } else {
        match macro_named(upper_of(l)) {
            None => Ok(DirectiveView::Literal),
            Some(m) => Ok(DirectiveView::Plain(m)),
        }
    }
}

/// Returns what `line` is to the macro expander.
pub fn parse_directive(line: &str) -> (r: Result<Directive, PreprocessError>)
    ensures
        r matches Ok(d) ==> directive_spec(line@) == Ok::<DirectiveView, PreprocessError>(d@),
        r matches Err(e) ==> directive_spec(line@) == Err::<DirectiveView, PreprocessError>(e),
{
    let cs = chars_of(line);
    match find_char(&cs, '(') {
        Some(i) => {
            let name = string_of_range(&cs, 0, i);
            let upper = to_uppercase(name.as_str());
            match find_arg_macro(&upper) {
                None => Ok(Directive::Literal),
                Some(m) => {
                    let j = match find_char(&cs, ',') {
                        Some(j) => j,
                        None => {
                            return Ok(Directive::Literal);
                        },
                    };
                    let k = match find_char(&cs, ')') {
                        Some(k) => k,
                        None => {
                            return Ok(Directive::Literal);
                        },
                    };
                    if j <= i || k <= j {
                        return Err(PreprocessError::MalformedMacroArguments);
                    }
                    match parse_u32(&cs, j + 1, k) {
                        None => Err(PreprocessError::MalformedMacroArguments),
                        Some(angle) => Ok(Directive::WithArgs(m, string_of_range(&cs, i + 1, j), angle)),
                    }
                },
            }
        },
        None => {
            let upper = to_uppercase(line);
            match find_macro(&upper) {
                None => Ok(Directive::Literal),
                Some(m) => Ok(Directive::Plain(m)),
            }
        },
    }
}

/// Whether the lines of the directive `m` are computed outside this library.
fn is_outside_macro(m: Macro) -> (r: bool)
    ensures
        r == (library_lines(m) is None),
{
    match m {
        Macro::SquareAvoidCliffs | Macro::ArenaCircles2v2
        | Macro::SnakeLands | Macro::ArenaLands | Macro::ArenaCircleGaps
        | Macro::ArenaPlayersGaps | Macro::BfLands => true,
        _ => false,
    }
}

/// The directive `d` is expanded outside this library: it has arguments,
/// or its geometry needs floating-point arithmetic.
pub open spec fn needs_outside(d: DirectiveView) -> bool {
    match d {
        DirectiveView::Literal => false,
        DirectiveView::Plain(m) => library_lines(m) is None,
        DirectiveView::WithArgs(_, _, _) => true,
    }
}

/// The lines that `l` expands to where this library expands it: `l` itself
/// when it is no directive, the lines of the catalog for a directive that
/// the library computes; `None` for a directive expanded outside.
pub open spec fn expand_line_spec(l: Seq<char>) -> Result<Option<Seq<Seq<char>>>, PreprocessError> {
    match directive_spec(l) {
        Err(e) => Err(e),
        Ok(d) => if needs_outside(d) {
            Ok(None)
        } else {
            match d {
                DirectiveView::Plain(m) => Ok(library_lines(m)),
                _ => Ok(Some(seq![l])),
            }
        },
    }
}

/// Returns the lines that `line` expands to: the line itself when it is no
/// directive, the lines of the catalog for a directive that this library
/// computes, and `None` for a directive that is expanded outside it.
pub fn expand_line(line: &str) -> (r: Result<Option<Vec<String>>, PreprocessError>)
    ensures
        r matches Ok(Some(v)) ==> expand_line_spec(line@) == Ok::<
            Option<Seq<Seq<char>>>,
            PreprocessError,
        >(Some(views(v@))),
        r matches Ok(None) ==> expand_line_spec(line@) == Ok::<
            Option<Seq<Seq<char>>>,
            PreprocessError,
        >(None),
        r matches Err(e) ==> expand_line_spec(line@) == Err::<
            Option<Seq<Seq<char>>>,
            PreprocessError,
        >(e),
{
    let d = match parse_directive(line) {
        Ok(d) => d,
        Err(e) => {
            return Err(e);
        },
    };
    match d {
        Directive::Literal => {
            let mut v: Vec<String> = Vec::new();
            v.push(String::from_str(line));
            assert(views(v@) =~= seq![line@]);
            Ok(Some(v))
        },
        Directive::Plain(m) => Ok(expand_macro(m)),
        Directive::WithArgs(_, _, _) => Ok(None),
    }
}

/// The lines of `ls` with their directives expanded, given the outside
/// expansions `ext` still unused, in order, and the output `out` so far.
pub open spec fn insert_from(
    ls: Seq<Seq<char>>,
    ext: Seq<Seq<Seq<char>>>,
    out: Seq<Seq<char>>,
) -> Result<Seq<Seq<char>>, PreprocessError>
    decreases ls.len(),
{
    if ls.len() == 0 {
        Ok(out)
    } else {
        let rest = ls.skip(1);
        match expand_line_spec(ls[0]) {
            Err(e) => Err(e),
            Ok(Some(lines)) => insert_from(rest, ext, out + lines),
            Ok(None) => if ext.len() == 0 {
                Err(PreprocessError::MissingExpansion)
            } else {
                insert_from(rest, ext.skip(1), out + ext[0])
            },
        }
    }
}

/// The directives of `ls` that are expanded outside this library, in order.
pub open spec fn requests_from(ls: Seq<Seq<char>>) -> Result<Seq<DirectiveView>, PreprocessError>
    decreases ls.len(),
{
    if ls.len() == 0 {
        Ok(Seq::empty())
    } else {
        match directive_spec(ls[0]) {
            Err(e) => Err(e),
            Ok(d) => match requests_from(ls.skip(1)) {
                Err(e) => Err(e),
                Ok(r) => Ok(if needs_outside(d) { seq![d] + r } else { r }),
            },
        }
    }
}

fn append_views(out: &mut Vec<String>, new: &Vec<String>)
    ensures
        views(final(out)@) == views(old(out)@) + views(new@),
{
    let ghost o0 = views(out@);
    let mut k: usize = 0;
    while k < new.len()
        invariant
            k <= new@.len(),
            views(out@) == o0 + views(new@).subrange(0, k as int),
        decreases new@.len() - k,
    {
        let ghost o = views(out@);
        let copy = new[k].clone();
        out.push(copy);
        assert(views(out@) =~= o.push(copy@));
        assert(views(out@) =~= o0 + views(new@).subrange(0, k + 1));
        k = k + 1;
    }
    assert(views(new@).subrange(0, k as int) =~= views(new@));
}

/// Replaces each directive line by its lines: those of the catalog where
/// this library computes them, else the next of `outside`, the expansions
/// computed elsewhere for the directives that [`outside_requests`] lists.
/// Expanded lines are not scanned again.
pub fn insert_macros(lines: Vec<String>, outside: Vec<Vec<String>>) -> (r: Result<
    Vec<String>,
    PreprocessError,
>)
    ensures
        r matches Ok(v) ==> insert_from(
            views(lines@),
            outside@.map_values(|e: Vec<String>| views(e@)),
            Seq::empty(),
        ) == Ok::<Seq<Seq<char>>, PreprocessError>(views(v@)),
        r matches Err(e) ==> insert_from(
            views(lines@),
            outside@.map_values(|e: Vec<String>| views(e@)),
            Seq::empty(),
        ) == Err::<Seq<Seq<char>>, PreprocessError>(e),
{
    let ghost ls = views(lines@);
    let ghost ext = outside@.map_values(|e: Vec<String>| views(e@));
    let ghost whole = insert_from(ls, ext, Seq::empty());
    let mut output: Vec<String> = Vec::new();
    let mut i: usize = 0;
    let mut used: usize = 0;
    assert(ls.skip(0) =~= ls);
    assert(ext.skip(0) =~= ext);
    assert(views(output@) =~= Seq::<Seq<char>>::empty());
    while i < lines.len()
        invariant
            ls == views(lines@),
            ext == outside@.map_values(|e: Vec<String>| views(e@)),
            i <= lines@.len(),
            used <= outside@.len(),
            whole == insert_from(ls, ext, Seq::empty()),
            whole == insert_from(ls.skip(i as int), ext.skip(used as int), views(output@)),
        decreases lines@.len() - i,
    {
        let ghost rest = ls.skip(i as int);
        assert(rest.skip(1) =~= ls.skip(i + 1));
        assert(rest[0] == lines@[i as int]@);
        match expand_line(lines[i].as_str()) {
            Err(e) => {
                return Err(e);
            },
            Ok(Some(new)) => {
                append_views(&mut output, &new);
            },
            Ok(None) => {
                if used >= outside.len() {
                    return Err(PreprocessError::MissingExpansion);
                }
                assert(ext.skip(used as int)[0] == views(outside@[used as int]@));
                assert(ext.skip(used as int).skip(1) =~= ext.skip(used + 1));
                append_views(&mut output, &outside[used]);
                used = used + 1;
            },
        }
        i = i + 1;
    }
    assert(ls.skip(i as int) =~= Seq::<Seq<char>>::empty());
    Ok(output)
}

/// Adds `f` in front of the requests of `r`.
pub open spec fn prepend_requests(
    f: Seq<DirectiveView>,
    r: Result<Seq<DirectiveView>, PreprocessError>,
) -> Result<Seq<DirectiveView>, PreprocessError> {
    match r {
        Ok(x) => Ok(f + x),
        Err(e) => Err(e),
    }
}

/// Lists, in order, the directives of `lines` that are expanded outside
/// this library, for the caller to compute and hand to [`insert_macros`].
pub fn outside_requests(lines: &Vec<String>) -> (r: Result<Vec<Directive>, PreprocessError>)
    ensures
        r matches Ok(v) ==> requests_from(views(lines@)) == Ok::<
            Seq<DirectiveView>,
            PreprocessError,
        >(v@.map_values(|d: Directive| d@)),
        r matches Err(e) ==> requests_from(views(lines@)) == Err::<
            Seq<DirectiveView>,
            PreprocessError,
        >(e),
{
    let ghost ls = views(lines@);
    let mut found: Vec<Directive> = Vec::new();
    let mut i: usize = 0;
    assert(ls.skip(0) =~= ls);
    assert(prepend_requests(Seq::empty(), requests_from(ls)) == requests_from(ls)) by {
        match requests_from(ls) {
            Ok(x) => {
                assert(Seq::<DirectiveView>::empty() + x =~= x);
            },
            Err(e) => {},
        }
    }
    assert(found@.map_values(|d: Directive| d@) =~= Seq::<DirectiveView>::empty());
    while i < lines.len()
        invariant
            ls == views(lines@),
            i <= lines@.len(),
            requests_from(ls) == prepend_requests(
                found@.map_values(|d: Directive| d@),
                requests_from(ls.skip(i as int)),
            ),
        decreases lines@.len() - i,
    {
        let ghost rest = ls.skip(i as int);
        assert(rest.skip(1) =~= ls.skip(i + 1));
        assert(rest[0] == lines@[i as int]@);
        let d = match parse_directive(lines[i].as_str()) {
            Ok(d) => d,
            Err(e) => {
                return Err(e);
            },
        };
        let outside = match &d {
            Directive::Literal => false,
            Directive::Plain(m) => is_outside_macro(*m),
            Directive::WithArgs(_, _, _) => true,
        };
        let ghost f0 = found@.map_values(|d: Directive| d@);
        let ghost dv = d@;
        if outside {
            found.push(d);
            assert(found@.map_values(|d: Directive| d@) =~= f0.push(dv));
        }
        proof {
            match requests_from(rest.skip(1)) {
                Ok(x) => {
                    assert(f0 + (seq![dv] + x) =~= f0.push(dv) + x);
                },
                Err(e) => {},
            }
        }
        i = i + 1;
    }
    assert(ls.skip(i as int) =~= Seq::<Seq<char>>::empty());
    assert(found@.map_values(|d: Directive| d@) + Seq::<DirectiveView>::empty()
        =~= found@.map_values(|d: Directive| d@));
    Ok(found)
}

} // verus!
