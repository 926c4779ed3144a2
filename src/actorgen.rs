//! The part of the macro catalog that places objects and actor areas
//! around the players' Town Centers.
//!
//! The Town Center tiles are named `tc_a` (left), `tc_b` (top), `tc_c`
//! (bottom) and `tc_d` (right); the boxes `box0`, `box1`, ... are squares of
//! growing size around the Town Center.
use vstd::prelude::*;
use crate::template::{numbered, push_numbered, push_text};
use crate::objects::{copies, land_line, BLOCK_CLOSE, PLACE_ON_LAND};
use crate::text::{push_decimal, push_str, replace_all, replace_str, split, string_of, views};

verus! {

/// The constant definitions: fixed lines.
pub const MAKE_CONSTANTS_TEXT: &'static str = "#const PHOFF 649\n\
#const PHON 1291\n\
#const TERRAIN_BLOCKER 1613\n\
#const TEMPORARY_REVEALER 651\n\
#const TRIBUTE_INEFFICIENCY 46";

/// The constant definitions: block for each number, which stands for `$`.
pub const MAKE_CONSTANTS_TEMPLATE_1: &'static str = "start_random\n\
percent_chance 50 #const SHEP$ 590\n\
percent_chance 50 #const SHEP$ 592\n\
end_random";

/// The constant definitions: block for each number, which stands for `$`.
pub const MAKE_CONSTANTS_TEMPLATE_2: &'static str = "start_random\n\
percent_chance 50 #const LUMBERJACK$ 123\n\
percent_chance 50 #const LUMBERJACK$ 218\n\
end_random";

/// The lines of [`make_constants`].
pub open spec fn make_constants_spec() -> Seq<Seq<char>> {
    split(MAKE_CONSTANTS_TEXT@, '\n') + numbered(MAKE_CONSTANTS_TEMPLATE_1@, 0, 6) + numbered(MAKE_CONSTANTS_TEMPLATE_2@, 0, 3)
}

/// Returns the lines that define the placeholder constants `PHOFF`, `PHON`,
/// `TERRAIN_BLOCKER`, `TEMPORARY_REVEALER` and `TRIBUTE_INEFFICIENCY`, and the
/// randomly male or female shepherds `SHEP0` to `SHEP5` and lumberjacks
/// `LUMBERJACK0` to `LUMBERJACK2`.
pub fn make_constants() -> (r: Vec<String>)
    ensures
        views(r@) == make_constants_spec(),
{
    let mut lines: Vec<String> = Vec::new();
    push_text(&mut lines, MAKE_CONSTANTS_TEXT);
    push_numbered(&mut lines, MAKE_CONSTANTS_TEMPLATE_1, 0, 6);
    push_numbered(&mut lines, MAKE_CONSTANTS_TEMPLATE_2, 0, 3);
    assert(views(lines@) =~= make_constants_spec());
    lines
}

/// The attribute settings: fixed lines.
pub const SET_PLACEHOLDER_ATTRIBUTES_TEXT: &'static str = "effect_amount SET_ATTRIBUTE PHOFF ATTR_DEAD_ID -1\n\
effect_amount SET_ATTRIBUTE PHOFF ATTR_TERRAIN_ID 0\n\
effect_amount SET_ATTRIBUTE PHOFF ATTR_LINE_OF_SIGHT 0\n\
effect_amount SET_ATTRIBUTE PHOFF ATTR_HITPOINTS 0\n\
effect_amount SET_ATTRIBUTE PHOFF ATTR_STORAGE_VALUE 0\n\
effect_amount SET_ATTRIBUTE PHON ATTR_DEAD_ID -1\n\
effect_amount SET_ATTRIBUTE PHON ATTR_TERRAIN_ID 0\n\
effect_amount SET_ATTRIBUTE PHON ATTR_LINE_OF_SIGHT 0\n\
effect_amount SET_ATTRIBUTE PHON ATTR_HITPOINTS 0\n\
effect_amount SET_ATTRIBUTE PHON ATTR_STORAGE_VALUE 0\n\
effect_amount GAIA_SET_ATTRIBUTE HERDABLE_A ATTR_HITPOINTS 0\n\
effect_amount SET_ATTRIBUTE TEMPORARY_REVEALER ATTR_DEAD_ID -1\n\
effect_amount SET_ATTRIBUTE TEMPORARY_REVEALER ATTR_HITPOINTS 0\n\
effect_amount SET_ATTRIBUTE TEMPORARY_REVEALER ATTR_LINE_OF_SIGHT 18\n\
effect_amount MOD_RESOURCE AMOUNT_STARTING_WOOD ATTR_ADD -30\n\
effect_amount MOD_RESOURCE AMOUNT_STARTING_FOOD ATTR_ADD -100\n\
effect_percent MOD_RESOURCE TRIBUTE_INEFFICIENCY ATTR_SET 50";

/// The lines of [`set_placeholder_attributes`].
pub open spec fn set_placeholder_attributes_spec() -> Seq<Seq<char>> {
    split(SET_PLACEHOLDER_ATTRIBUTES_TEXT@, '\n')
}

/// Returns the lines that clear the placeholder attributes in the player
/// setup, and set the Gaia hit points of `HERDABLE_A` to `0`.
pub fn set_placeholder_attributes() -> (r: Vec<String>)
    ensures
        views(r@) == set_placeholder_attributes_spec(),
{
    let mut lines: Vec<String> = Vec::new();
    push_text(&mut lines, SET_PLACEHOLDER_ATTRIBUTES_TEXT);
    assert(views(lines@) =~= set_placeholder_attributes_spec());
    lines
}

/// The attribute settings: fixed lines.
pub const SET_PLACEHOLDER_ATTRIBUTES_FOUR_SEASONS_TEXT: &'static str = "effect_amount SET_ATTRIBUTE PHOFF ATTR_DEAD_ID -1\n\
effect_amount SET_ATTRIBUTE PHOFF ATTR_TERRAIN_ID 0\n\
effect_amount SET_ATTRIBUTE PHOFF ATTR_LINE_OF_SIGHT 0\n\
effect_amount SET_ATTRIBUTE PHOFF ATTR_HITPOINTS 0\n\
effect_amount SET_ATTRIBUTE PHOFF ATTR_STORAGE_VALUE 0\n\
effect_amount SET_ATTRIBUTE PHON ATTR_DEAD_ID -1\n\
effect_amount SET_ATTRIBUTE PHON ATTR_TERRAIN_ID 0\n\
effect_amount SET_ATTRIBUTE PHON ATTR_LINE_OF_SIGHT 0\n\
effect_amount SET_ATTRIBUTE PHON ATTR_HITPOINTS 0\n\
effect_amount SET_ATTRIBUTE PHON ATTR_STORAGE_VALUE 0\n\
effect_amount GAIA_SET_ATTRIBUTE GRASS_HERDABLE_A ATTR_HITPOINTS 0\n\
effect_amount GAIA_SET_ATTRIBUTE SNOW_HERDABLE_A ATTR_HITPOINTS 0\n\
effect_amount GAIA_SET_ATTRIBUTE DIRT_HERDABLE_A ATTR_HITPOINTS 0\n\
effect_amount GAIA_SET_ATTRIBUTE JUNGLE_HERDABLE_A ATTR_HITPOINTS 0\n\
effect_amount SET_ATTRIBUTE TEMPORARY_REVEALER ATTR_DEAD_ID -1\n\
effect_amount SET_ATTRIBUTE TEMPORARY_REVEALER ATTR_HITPOINTS 0\n\
effect_amount SET_ATTRIBUTE TEMPORARY_REVEALER ATTR_LINE_OF_SIGHT 18\n\
effect_amount MOD_RESOURCE AMOUNT_STARTING_WOOD ATTR_ADD -30\n\
effect_amount MOD_RESOURCE AMOUNT_STARTING_FOOD ATTR_ADD -100\n\
effect_percent MOD_RESOURCE TRIBUTE_INEFFICIENCY ATTR_SET 50";

/// The lines of [`set_placeholder_attributes_four_seasons`].
pub open spec fn set_placeholder_attributes_four_seasons_spec() -> Seq<Seq<char>> {
    split(SET_PLACEHOLDER_ATTRIBUTES_FOUR_SEASONS_TEXT@, '\n')
}

/// Returns the placeholder attribute settings for Four Seasons, which set the
/// Gaia hit points of the herdable of every biome to `0`.
pub fn set_placeholder_attributes_four_seasons() -> (r: Vec<String>)
    ensures
        views(r@) == set_placeholder_attributes_four_seasons_spec(),
{
    let mut lines: Vec<String> = Vec::new();
    push_text(&mut lines, SET_PLACEHOLDER_ATTRIBUTES_FOUR_SEASONS_TEXT);
    assert(views(lines@) =~= set_placeholder_attributes_four_seasons_spec());
    lines
}

/// The placeholder objects: fixed lines.
pub const TC_CENTER_TEXT: &'static str = "create_object PHON {\n\
set_place_for_every_player\n\
set_gaia_object_only\n\
max_distance_to_players 0\n\
actor_area tc_d\n\
actor_area_radius 0\n\
}\n\
create_object PHON {\n\
number_of_objects 2\n\
set_place_for_every_player\n\
set_gaia_object_only\n\
find_closest\n\
min_distance_to_players 1\n\
max_distance_to_players 1\n\
actor_area tc_r0\n\
actor_area_radius 0\n\
}\n\
create_object PHON {\n\
set_place_for_every_player\n\
set_gaia_object_only\n\
find_closest\n\
min_distance_to_players 1\n\
max_distance_to_players 1\n\
avoid_actor_area tc_r0\n\
actor_area tc_c\n\
actor_area_radius 0\n\
}\n\
create_object PHON {\n\
set_place_for_every_player\n\
set_gaia_object_only\n\
find_closest\n\
min_distance_to_players 1\n\
max_distance_to_players 1\n\
avoid_actor_area tc_r0\n\
avoid_actor_area tc_c\n\
actor_area tc_b\n\
actor_area_radius 0\n\
}\n\
create_object PHON {\n\
number_of_objects 2\n\
set_place_for_every_player\n\
set_gaia_object_only\n\
find_closest\n\
min_distance_to_players 1\n\
max_distance_to_players 1\n\
actor_area tc_r1\n\
actor_area_radius 1\n\
}\n\
create_object PHON {\n\
set_place_for_every_player\n\
set_gaia_object_only\n\
max_distance_to_players 1\n\
avoid_actor_area tc_r1\n\
actor_area tc_a\n\
actor_area_radius 0\n\
}";

/// The lines of [`tc_center`].
pub open spec fn tc_center_spec() -> Seq<Seq<char>> {
    split(TC_CENTER_TEXT@, '\n')
}

/// Returns the lines that set up the placeholders `tc_a`, `tc_b`, `tc_c`,
/// `tc_d`, `tc_r0` and `tc_r1` around each Town Center.
pub fn tc_center() -> (r: Vec<String>)
    ensures
        views(r@) == tc_center_spec(),
{
    let mut lines: Vec<String> = Vec::new();
    push_text(&mut lines, TC_CENTER_TEXT);
    assert(views(lines@) =~= tc_center_spec());
    lines
}

/// The boxes: fixed lines.
pub const TC_BOXES_TEXT: &'static str = "create_object PHON {\n\
set_place_for_every_player\n\
set_gaia_object_only\n\
actor_area_to_place_in tc_a\n\
actor_area box0\n\
actor_area_radius 0\n\
}\n\
create_object PHON {\n\
set_place_for_every_player\n\
set_gaia_object_only\n\
actor_area_to_place_in tc_b\n\
actor_area box0\n\
actor_area_radius 0\n\
}\n\
create_object PHON {\n\
set_place_for_every_player\n\
set_gaia_object_only\n\
actor_area_to_place_in tc_c\n\
actor_area box0\n\
actor_area_radius 0\n\
}\n\
create_object PHON {\n\
set_place_for_every_player\n\
set_gaia_object_only\n\
actor_area_to_place_in tc_d\n\
actor_area box0\n\
actor_area_radius 0\n\
}";

/// The boxes: block for each number, which stands for `$`.
pub const TC_BOXES_TEMPLATE: &'static str = "create_object PHON {\n\
number_of_objects 4\n\
set_place_for_every_player\n\
set_gaia_object_only\n\
actor_area_to_place_in box0\n\
actor_area box$\n\
actor_area_radius $\n\
}";

/// The lines of [`tc_boxes`].
pub open spec fn tc_boxes_spec() -> Seq<Seq<char>> {
    split(TC_BOXES_TEXT@, '\n') + numbered(TC_BOXES_TEMPLATE@, 1, 63)
}

/// Returns the lines that place the actor-area boxes `box0` to `box63`
/// around the player Town Centers.
pub fn tc_boxes() -> (r: Vec<String>)
    ensures
        views(r@) == tc_boxes_spec(),
{
    let mut lines: Vec<String> = Vec::new();
    push_text(&mut lines, TC_BOXES_TEXT);
    push_numbered(&mut lines, TC_BOXES_TEMPLATE, 1, 64);
    assert(views(lines@) =~= tc_boxes_spec());
    lines
}

/// The boxes: fixed lines.
pub const TC_MULTIBOXES_TEXT: &'static str = "create_object PHON {\n\
set_place_for_every_player\n\
set_gaia_object_only\n\
actor_area_to_place_in tc_a\n\
avoid_actor_area box0\n\
actor_area box0\n\
actor_area_radius 0\n\
}\n\
create_object PHON {\n\
set_place_for_every_player\n\
set_gaia_object_only\n\
actor_area_to_place_in tc_b\n\
avoid_actor_area box0\n\
actor_area box0\n\
actor_area_radius 0\n\
}\n\
create_object PHON {\n\
set_place_for_every_player\n\
set_gaia_object_only\n\
actor_area_to_place_in tc_c\n\
avoid_actor_area box0\n\
actor_area box0\n\
actor_area_radius 0\n\
}\n\
create_object PHON {\n\
set_place_for_every_player\n\
set_gaia_object_only\n\
actor_area_to_place_in tc_d\n\
avoid_actor_area box0\n\
actor_area box0\n\
actor_area_radius 0\n\
}";

/// The boxes: block for each number, which stands for `$`.
pub const TC_MULTIBOXES_TEMPLATE: &'static str = "create_object PHON {\n\
number_of_objects 8\n\
set_place_for_every_player\n\
set_gaia_object_only\n\
actor_area_to_place_in box0\n\
actor_area box$\n\
actor_area_radius $\n\
}";

/// The lines of [`tc_multiboxes`].
pub open spec fn tc_multiboxes_spec() -> Seq<Seq<char>> {
    split(TC_MULTIBOXES_TEXT@, '\n') + numbered(TC_MULTIBOXES_TEMPLATE@, 1, 63)
}

/// Returns the lines that place the actor-area boxes for several Town
/// Centers per player.
pub fn tc_multiboxes() -> (r: Vec<String>)
    ensures
        views(r@) == tc_multiboxes_spec(),
{
    let mut lines: Vec<String> = Vec::new();
    push_text(&mut lines, TC_MULTIBOXES_TEXT);
    push_numbered(&mut lines, TC_MULTIBOXES_TEMPLATE, 1, 64);
    assert(views(lines@) =~= tc_multiboxes_spec());
    lines
}

/// The Villagers: fixed lines.
pub const VILS_9_TC_TEXT: &'static str = " create_object PHON {\n\
set_place_for_every_player\n\
set_gaia_object_only\n\
number_of_objects 5\n\
min_distance_to_players 1\n\
max_distance_to_players 1\n\
find_closest\n\
actor_area near_positioner\n\
actor_area_radius 0\n\
}\n\
create_object PHOFF {\n\
set_place_for_every_player\n\
set_gaia_object_only\n\
min_distance_to_players 1\n\
max_distance_to_players 1\n\
find_closest\n\
second_object HERDABLE_A\n\
actor_area herd0\n\
actor_area_radius 0\n\
avoid_actor_area near_positioner\n\
}\n\
create_object PHON {\n\
set_place_for_every_player\n\
set_gaia_object_only\n\
actor_area_to_place_in herd0\n\
actor_area herd1\n\
actor_area_radius 1\n\
}\n\
create_object PHON {\n\
set_place_for_every_player\n\
set_gaia_object_only\n\
max_distance_to_players 0\n\
actor_area tc_d1\n\
actor_area_radius 1\n\
}\n\
create_object PHON {\n\
set_place_for_every_player\n\
set_gaia_object_only\n\
number_of_objects 5\n\
max_distance_to_players 2\n\
temp_min_distance_group_placement 1\n\
find_closest\n\
avoid_actor_area tc_d1\n\
actor_area far_positioner\n\
actor_area_radius 1\n\
}\n\
create_object PHON {\n\
set_place_for_every_player\n\
set_gaia_object_only\n\
max_distance_to_players 2\n\
find_closest\n\
avoid_actor_area tc_d1\n\
avoid_actor_area far_positioner\n\
actor_area blocking_seventh_villager\n\
actor_area_radius 0\n\
}";

/// The Villagers: block for each number, which stands for `$`.
pub const VILS_9_TC_TEMPLATE: &'static str = "create_object PHOFF {\n\
set_place_for_every_player\n\
actor_area_to_place_in herd1\n\
avoid_actor_area tc_d\n\
avoid_actor_area villager0\n\
avoid_actor_area herd0\n\
avoid_actor_area blocking_seventh_villager\n\
actor_area villager0\n\
actor_area_radius 0\n\
second_object SHEP$\n\
}";

/// The lines of [`vils_9_tc`].
pub open spec fn vils_9_tc_spec() -> Seq<Seq<char>> {
    split(VILS_9_TC_TEXT@, '\n') + numbered(VILS_9_TC_TEMPLATE@, 0, 6)
}

/// Returns the lines that place nine Villagers under the Town Center, using
/// the shepherd constants `SHEP0` to `SHEP5`.
pub fn vils_9_tc() -> (r: Vec<String>)
    ensures
        views(r@) == vils_9_tc_spec(),
{
    let mut lines: Vec<String> = Vec::new();
    push_text(&mut lines, VILS_9_TC_TEXT);
    push_numbered(&mut lines, VILS_9_TC_TEMPLATE, 0, 6);
    assert(views(lines@) =~= vils_9_tc_spec());
    lines
}

/// The Villagers: fixed lines.
pub const VILS_9_TC_ZE_WALL_TEXT: &'static str = " create_object PHON {\n\
set_place_for_every_player\n\
set_gaia_object_only\n\
number_of_objects 5\n\
min_distance_to_players 1\n\
max_distance_to_players 1\n\
find_closest\n\
actor_area near_positioner\n\
actor_area_radius 0\n\
}\n\
create_object PHOFF {\n\
set_place_for_every_player\n\
set_gaia_object_only\n\
min_distance_to_players 1\n\
max_distance_to_players 1\n\
find_closest\n\
second_object HERDABLE_A\n\
actor_area herd0\n\
actor_area_radius 0\n\
avoid_actor_area near_positioner\n\
}\n\
create_object PHON {\n\
set_place_for_every_player\n\
set_gaia_object_only\n\
actor_area_to_place_in herd0\n\
actor_area herd1\n\
actor_area_radius 1\n\
}\n\
create_object PHON {\n\
set_place_for_every_player\n\
set_gaia_object_only\n\
max_distance_to_players 0\n\
actor_area tc_d1\n\
actor_area_radius 1\n\
}\n\
create_object PHON {\n\
set_place_for_every_player\n\
set_gaia_object_only\n\
number_of_objects 5\n\
max_distance_to_players 2\n\
temp_min_distance_group_placement 1\n\
find_closest\n\
avoid_actor_area tc_d1\n\
actor_area far_positioner\n\
actor_area_radius 1\n\
}\n\
create_object PHON {\n\
set_place_for_every_player\n\
set_gaia_object_only\n\
max_distance_to_players 2\n\
find_closest\n\
avoid_actor_area tc_d1\n\
avoid_actor_area far_positioner\n\
actor_area blocking_seventh_villager\n\
actor_area_radius 0\n\
}";

/// The Villagers: block for each number, which stands for `$`.
pub const VILS_9_TC_ZE_WALL_TEMPLATE: &'static str = "create_object PHOFF {\n\
set_place_for_every_player\n\
actor_area_to_place_in herd1\n\
avoid_actor_area tc_d\n\
avoid_actor_area villager0\n\
avoid_actor_area herd0\n\
avoid_actor_area blocking_seventh_villager\n\
actor_area villager0\n\
actor_area_radius 0\n\
second_object SHEP$\n\
}";

/// The lines of [`vils_9_tc_ze_wall`].
pub open spec fn vils_9_tc_ze_wall_spec() -> Seq<Seq<char>> {
    split(VILS_9_TC_ZE_WALL_TEXT@, '\n') + numbered(VILS_9_TC_ZE_WALL_TEMPLATE@, 0, 6)
}

/// The ZeWall variant of [`vils_9_tc`], which does not make the herdable
/// belong to Gaia.
pub fn vils_9_tc_ze_wall() -> (r: Vec<String>)
    ensures
        views(r@) == vils_9_tc_ze_wall_spec(),
{
    let mut lines: Vec<String> = Vec::new();
    push_text(&mut lines, VILS_9_TC_ZE_WALL_TEXT);
    push_numbered(&mut lines, VILS_9_TC_ZE_WALL_TEMPLATE, 0, 6);
    assert(views(lines@) =~= vils_9_tc_ze_wall_spec());
    lines
}

/// The Villagers: fixed lines.
pub const MULTI_VILS_9_TC_TEXT: &'static str = "create_object PHON {\n\
set_place_for_every_player\n\
set_gaia_object_only\n\
number_of_objects 5\n\
min_distance_to_players 1\n\
max_distance_to_players 1\n\
find_closest\n\
actor_area near_positioner\n\
actor_area_radius 0\n\
}\n\
create_object PHOFF {\n\
set_place_for_every_player\n\
set_gaia_object_only\n\
min_distance_to_players 1\n\
max_distance_to_players 1\n\
find_closest\n\
second_object GRASS_HERDABLE_A\n\
avoid_actor_area snow-region\n\
avoid_actor_area dirt-region\n\
avoid_actor_area jungle-region\n\
actor_area herd0\n\
actor_area_radius 0\n\
avoid_actor_area near_positioner\n\
}\n\
create_object PHOFF {\n\
set_place_for_every_player\n\
set_gaia_object_only\n\
min_distance_to_players 1\n\
max_distance_to_players 1\n\
find_closest\n\
second_object SNOW_HERDABLE_A\n\
avoid_actor_area grass-region\n\
avoid_actor_area dirt-region\n\
avoid_actor_area jungle-region\n\
actor_area herd0\n\
actor_area_radius 0\n\
avoid_actor_area near_positioner\n\
}\n\
create_object PHOFF {\n\
set_place_for_every_player\n\
set_gaia_object_only\n\
min_distance_to_players 1\n\
max_distance_to_players 1\n\
find_closest\n\
second_object DIRT_HERDABLE_A\n\
avoid_actor_area grass-region\n\
avoid_actor_area snow-region\n\
avoid_actor_area jungle-region\n\
actor_area herd0\n\
actor_area_radius 0\n\
avoid_actor_area near_positioner\n\
}\n\
create_object PHOFF {\n\
set_place_for_every_player\n\
set_gaia_object_only\n\
min_distance_to_players 1\n\
max_distance_to_players 1\n\
find_closest\n\
second_object JUNGLE_HERDABLE_A\n\
avoid_actor_area grass-region\n\
avoid_actor_area snow-region\n\
avoid_actor_area dirt-region\n\
actor_area herd0\n\
actor_area_radius 0\n\
avoid_actor_area near_positioner\n\
}\n\
create_object PHON {\n\
number_of_objects 2\n\
set_place_for_every_player\n\
set_gaia_object_only\n\
actor_area_to_place_in herd0\n\
actor_area herd1\n\
actor_area_radius 1\n\
}\n\
create_object PHON {\n\
set_place_for_every_player\n\
set_gaia_object_only\n\
max_distance_to_players 0\n\
actor_area tc_d1\n\
actor_area_radius 1\n\
}\n\
create_object PHON {\n\
set_place_for_every_player\n\
set_gaia_object_only\n\
number_of_objects 5\n\
max_distance_to_players 2\n\
temp_min_distance_group_placement 1\n\
find_closest\n\
avoid_actor_area tc_d1\n\
actor_area far_positioner\n\
actor_area_radius 1\n\
}\n\
create_object PHON {\n\
set_place_for_every_player\n\
set_gaia_object_only\n\
max_distance_to_players 2\n\
find_closest\n\
avoid_actor_area tc_d1\n\
avoid_actor_area far_positioner\n\
actor_area blocking_seventh_villager\n\
actor_area_radius 0\n\
}";

/// The Villagers: block for each number, which stands for `$`.
pub const MULTI_VILS_9_TC_TEMPLATE: &'static str = "create_object PHOFF {\n\
set_place_for_every_player\n\
actor_area_to_place_in herd1\n\
avoid_actor_area tc_d\n\
avoid_actor_area villager0\n\
avoid_actor_area herd0\n\
avoid_actor_area blocking_seventh_villager\n\
actor_area villager0\n\
actor_area_radius 0\n\
max_distance_to_players 4\n\
second_object SHEP$\n\
}";

/// The lines of [`multi_vils_9_tc`].
pub open spec fn multi_vils_9_tc_spec() -> Seq<Seq<char>> {
    split(MULTI_VILS_9_TC_TEXT@, '\n') + numbered(MULTI_VILS_9_TC_TEMPLATE@, 0, 6)
}

/// Returns the lines for nine Villagers with a start of two Town Centers.
pub fn multi_vils_9_tc() -> (r: Vec<String>)
    ensures
        views(r@) == multi_vils_9_tc_spec(),
{
    let mut lines: Vec<String> = Vec::new();
    push_text(&mut lines, MULTI_VILS_9_TC_TEXT);
    push_numbered(&mut lines, MULTI_VILS_9_TC_TEMPLATE, 0, 6);
    assert(views(lines@) =~= multi_vils_9_tc_spec());
    lines
}

/// The Houses: fixed lines.
pub const HOUSE_GAP_3_TEXT: &'static str = "create_object PHON {\n\
number_of_objects 2\n\
set_gaia_object_only\n\
set_place_for_every_player\n\
find_closest\n\
min_distance_to_players 5\n\
max_distance_to_players 5\n\
actor_area house_avoid_box5\n\
actor_area_radius 5\n\
}\n\
create_object PHON {\n\
number_of_objects 99\n\
set_gaia_object_only\n\
set_place_for_every_player\n\
actor_area_to_place_in box5\n\
avoid_actor_area house_avoid_box5\n\
avoid_actor_area box4\n\
actor_area house_placement\n\
actor_area_radius 0\n\
}\n\
create_object PHON {\n\
number_of_objects 2\n\
set_gaia_object_only\n\
set_place_for_every_player\n\
find_closest\n\
min_distance_to_players 5\n\
max_distance_to_players 5\n\
actor_area house_placement_box6\n\
actor_area_radius 6\n\
}\n\
create_object PHON {\n\
number_of_objects 99\n\
set_place_for_every_player\n\
set_gaia_object_only\n\
actor_area_to_place_in house_placement_box6\n\
avoid_actor_area box5\n\
max_distance_to_players 7\n\
actor_area house_placement\n\
actor_area_radius 0\n\
}\n\
create_object HOUSE {\n\
number_of_objects 2\n\
temp_min_distance_group_placement 7\n\
set_place_for_every_player\n\
avoid_forest_zone 2\n\
actor_area_to_place_in house_placement\n\
actor_area house_right_0\n\
actor_area_radius 0\n\
}\n\
create_object PHON {\n\
number_of_objects 2\n\
set_place_for_every_player\n\
set_gaia_object_only\n\
actor_area_to_place_in house_right_0\n\
actor_area house_right_1\n\
actor_area_radius 1\n\
}\n\
create_object PHON {\n\
number_of_objects 18\n\
set_place_for_every_player\n\
set_gaia_object_only\n\
actor_area_to_place_in house_right_1\n\
actor_area house1_cover\n\
actor_area_radius 0\n\
}\n\
create_object TERRAIN_BLOCKER {\n\
number_of_objects 10\n\
set_place_for_every_player\n\
set_gaia_object_only\n\
actor_area_to_place_in house1_cover\n\
actor_area outside_house1\n\
actor_area_radius 0\n\
}\n\
create_object PHON {\n\
number_of_objects 8\n\
set_place_for_every_player\n\
set_gaia_object_only\n\
actor_area_to_place_in house1_cover\n\
avoid_actor_area outside_house1\n\
actor_area house0\n\
actor_area_radius 0\n\
}\n\
create_object PHON {\n\
number_of_objects 8\n\
set_place_for_every_player\n\
set_gaia_object_only\n\
actor_area_to_place_in house0\n\
actor_area house1\n\
actor_area_radius 1\n\
}\n\
create_object PHON {\n\
number_of_objects 8\n\
set_place_for_every_player\n\
set_gaia_object_only\n\
actor_area_to_place_in house0\n\
actor_area house2\n\
actor_area_radius 2\n\
}\n\
create_object PHON {\n\
number_of_objects 8\n\
set_place_for_every_player\n\
set_gaia_object_only\n\
actor_area_to_place_in house0\n\
actor_area house3\n\
actor_area_radius 3\n\
}\n\
create_object PHON {\n\
number_of_objects 8\n\
set_place_for_every_player\n\
set_gaia_object_only\n\
actor_area_to_place_in house0\n\
actor_area house4\n\
actor_area_radius 4\n\
}\n\
create_object TERRAIN_BLOCKER {\n\
number_of_objects 14\n\
set_place_for_every_player\n\
set_gaia_object_only\n\
actor_area_to_place_in house1\n\
}";

/// The Houses: block for each number, which stands for `$`.
pub const HOUSE_GAP_3_TEMPLATE: &'static str = "create_object PHON {\n\
number_of_objects 8\n\
set_place_for_every_player\n\
set_gaia_object_only\n\
actor_area_to_place_in house0\n\
actor_area house$\n\
actor_area_radius $\n\
}";

/// The lines of [`house_gap_3`].
pub open spec fn house_gap_3_spec() -> Seq<Seq<char>> {
    split(HOUSE_GAP_3_TEXT@, '\n') + numbered(HOUSE_GAP_3_TEMPLATE@, 2, 8)
}

/// Returns the actor areas `house0` to `house9` for placing Houses with a
/// gap of three tiles to the Town Center, and the Houses themselves.
pub fn house_gap_3() -> (r: Vec<String>)
    ensures
        views(r@) == house_gap_3_spec(),
{
    let mut lines: Vec<String> = Vec::new();
    push_text(&mut lines, HOUSE_GAP_3_TEXT);
    push_numbered(&mut lines, HOUSE_GAP_3_TEMPLATE, 2, 10);
    assert(views(lines@) =~= house_gap_3_spec());
    lines
}

/// The Houses: fixed lines.
pub const MULTI_HOUSES_TEXT: &'static str = "create_object PHON {\n\
number_of_objects 2\n\
set_gaia_object_only\n\
set_place_for_every_player\n\
find_closest\n\
min_distance_to_players 5\n\
max_distance_to_players 5\n\
actor_area house_avoid_box5\n\
actor_area_radius 5\n\
}\n\
create_object PHON {\n\
number_of_objects 99\n\
set_gaia_object_only\n\
set_place_for_every_player\n\
actor_area_to_place_in box5\n\
avoid_actor_area house_avoid_box5\n\
avoid_actor_area box4\n\
actor_area house_placement\n\
actor_area_radius 0\n\
}\n\
create_object PHON {\n\
number_of_objects 2\n\
set_gaia_object_only\n\
set_place_for_every_player\n\
find_closest\n\
min_distance_to_players 5\n\
max_distance_to_players 5\n\
actor_area house_placement_box6\n\
actor_area_radius 6\n\
}\n\
create_object PHON {\n\
number_of_objects 99\n\
set_place_for_every_player\n\
set_gaia_object_only\n\
actor_area_to_place_in house_placement_box6\n\
avoid_actor_area box5\n\
max_distance_to_players 7\n\
actor_area house_placement\n\
actor_area_radius 0\n\
}\n\
create_object HOUSE {\n\
number_of_objects 2\n\
temp_min_distance_group_placement 7\n\
set_place_for_every_player\n\
avoid_forest_zone 2\n\
actor_area_to_place_in house_placement\n\
actor_area house_right_0\n\
actor_area_radius 0\n\
max_distance_to_players 10\n\
}\n\
create_object PHON {\n\
number_of_objects 2\n\
set_place_for_every_player\n\
set_gaia_object_only\n\
actor_area_to_place_in house_right_0\n\
actor_area house_right_1\n\
actor_area_radius 1\n\
max_distance_to_players 10\n\
}\n\
create_object PHON {\n\
number_of_objects 18\n\
set_place_for_every_player\n\
set_gaia_object_only\n\
actor_area_to_place_in house_right_1\n\
actor_area house1_cover\n\
actor_area_radius 0\n\
max_distance_to_players 10\n\
}\n\
create_object TERRAIN_BLOCKER {\n\
number_of_objects 10\n\
set_place_for_every_player\n\
set_gaia_object_only\n\
actor_area_to_place_in house1_cover\n\
actor_area outside_house1\n\
actor_area_radius 0\n\
max_distance_to_players 10\n\
}\n\
create_object PHON {\n\
number_of_objects 8\n\
set_place_for_every_player\n\
set_gaia_object_only\n\
actor_area_to_place_in house1_cover\n\
avoid_actor_area outside_house1\n\
actor_area house0\n\
actor_area_radius 0\n\
max_distance_to_players 10\n\
}\n\
create_object PHON {\n\
number_of_objects 8\n\
set_place_for_every_player\n\
set_gaia_object_only\n\
actor_area_to_place_in house0\n\
actor_area house1\n\
actor_area_radius 1\n\
max_distance_to_players 10\n\
}\n\
create_object PHON {\n\
number_of_objects 8\n\
set_place_for_every_player\n\
set_gaia_object_only\n\
actor_area_to_place_in house0\n\
actor_area house2\n\
actor_area_radius 2\n\
max_distance_to_players 10\n\
}\n\
create_object PHON {\n\
number_of_objects 8\n\
set_place_for_every_player\n\
set_gaia_object_only\n\
actor_area_to_place_in house0\n\
actor_area house3\n\
actor_area_radius 3\n\
max_distance_to_players 10\n\
}\n\
create_object PHON {\n\
number_of_objects 8\n\
set_place_for_every_player\n\
set_gaia_object_only\n\
actor_area_to_place_in house0\n\
actor_area house4\n\
actor_area_radius 4\n\
max_distance_to_players 10\n\
} \n\
create_object TERRAIN_BLOCKER {\n\
number_of_objects 14\n\
set_place_for_every_player\n\
set_gaia_object_only\n\
actor_area_to_place_in house1\n\
max_distance_to_players 10\n\
}";

/// The lines of [`multi_houses`].
pub open spec fn multi_houses_spec() -> Seq<Seq<char>> {
    split(MULTI_HOUSES_TEXT@, '\n')
}

/// Returns the lines for Houses with a start of two Town Centers.
pub fn multi_houses() -> (r: Vec<String>)
    ensures
        views(r@) == multi_houses_spec(),
{
    let mut lines: Vec<String> = Vec::new();
    push_text(&mut lines, MULTI_HOUSES_TEXT);
    assert(views(lines@) =~= multi_houses_spec());
    lines
}

/// The stragglers: fixed lines.
pub const VILS_9_STRAGGLER_TEXT: &'static str = "create_object STRAGGLER {\n\
set_place_for_every_player\n\
set_gaia_object_only\n\
avoid_forest_zone 2\n\
actor_area_to_place_in box5\n\
avoid_actor_area box4\n\
avoid_actor_area house2\n\
actor_area villager_tree0\n\
actor_area_radius 0\n\
}\n\
create_object PHON {\n\
set_place_for_every_player\n\
set_gaia_object_only\n\
actor_area_to_place_in villager_tree0\n\
actor_area villager_tree1\n\
actor_area_radius 1\n\
}\n\
create_object PHON {\n\
set_place_for_every_player\n\
set_gaia_object_only\n\
actor_area_to_place_in villager_tree0\n\
actor_area straggler2\n\
actor_area_radius 2\n\
}\n\
create_object STRAGGLER {\n\
number_of_objects 2\n\
set_place_for_every_player\n\
set_gaia_object_only\n\
temp_min_distance_group_placement 2\n\
avoid_forest_zone 2\n\
actor_area_to_place_in box4\n\
avoid_actor_area box3\n\
avoid_actor_area house1\n\
avoid_actor_area straggler2\n\
actor_area straggler2\n\
actor_area_radius 2\n\
}\n\
create_object STRAGGLER {\n\
number_of_objects 2\n\
set_place_for_every_player\n\
set_gaia_object_only\n\
temp_min_distance_group_placement 3\n\
avoid_forest_zone 2\n\
actor_area_to_place_in box5\n\
avoid_actor_area box4\n\
avoid_actor_area house1\n\
avoid_actor_area straggler2\n\
actor_area straggler2\n\
actor_area_radius 2\n\
}";

/// The stragglers: block for each number, which stands for `$`.
pub const VILS_9_STRAGGLER_TEMPLATE: &'static str = "create_object LUMBERJACK$ {\n\
set_place_for_every_player\n\
actor_area_to_place_in villager_tree1\n\
actor_area villager0\n\
actor_area_radius 0\n\
}";

/// The lines of [`vils_9_straggler`].
pub open spec fn vils_9_straggler_spec() -> Seq<Seq<char>> {
    split(VILS_9_STRAGGLER_TEXT@, '\n') + numbered(VILS_9_STRAGGLER_TEMPLATE@, 0, 3)
}

/// Returns the lines for straggler trees, one of them surrounded by the
/// lumberjacks `LUMBERJACK0` to `LUMBERJACK2`.
pub fn vils_9_straggler() -> (r: Vec<String>)
    ensures
        views(r@) == vils_9_straggler_spec(),
{
    let mut lines: Vec<String> = Vec::new();
    push_text(&mut lines, VILS_9_STRAGGLER_TEXT);
    push_numbered(&mut lines, VILS_9_STRAGGLER_TEMPLATE, 0, 3);
    assert(views(lines@) =~= vils_9_straggler_spec());
    lines
}

/// The stragglers: fixed lines.
pub const VILS_9_STRAGGLER_SOCOTRA_TEXT: &'static str = "create_object STRAGGLER {\n\
set_place_for_every_player\n\
set_gaia_object_only\n\
find_closest_to_map_edge\n\
avoid_forest_zone 2\n\
actor_area_to_place_in box5\n\
avoid_actor_area box4\n\
avoid_actor_area house2\n\
actor_area villager_tree0\n\
actor_area_radius 0\n\
}\n\
create_object PHON {\n\
set_place_for_every_player\n\
set_gaia_object_only\n\
actor_area_to_place_in villager_tree0\n\
actor_area villager_tree1\n\
actor_area_radius 1\n\
}\n\
create_object PHON {\n\
set_place_for_every_player\n\
set_gaia_object_only\n\
actor_area_to_place_in villager_tree0\n\
actor_area straggler2\n\
actor_area_radius 2\n\
}\n\
create_object STRAGGLER {\n\
number_of_objects 2\n\
set_place_for_every_player\n\
set_gaia_object_only\n\
temp_min_distance_group_placement 2\n\
avoid_forest_zone 2\n\
actor_area_to_place_in box4\n\
avoid_actor_area box3\n\
avoid_actor_area house1\n\
avoid_actor_area straggler2\n\
actor_area straggler2\n\
actor_area_radius 2\n\
}\n\
create_object STRAGGLER {\n\
number_of_objects 2\n\
set_place_for_every_player\n\
set_gaia_object_only\n\
temp_min_distance_group_placement 3\n\
avoid_forest_zone 2\n\
actor_area_to_place_in box5\n\
avoid_actor_area box4\n\
avoid_actor_area house1\n\
avoid_actor_area straggler2\n\
actor_area straggler2\n\
actor_area_radius 2\n\
}";

/// The stragglers: block for each number, which stands for `$`.
pub const VILS_9_STRAGGLER_SOCOTRA_TEMPLATE: &'static str = "create_object LUMBERJACK$ {\n\
set_place_for_every_player\n\
actor_area_to_place_in villager_tree1\n\
actor_area villager0\n\
actor_area_radius 0\n\
}";

/// The lines of [`vils_9_straggler_socotra`].
pub open spec fn vils_9_straggler_socotra_spec() -> Seq<Seq<char>> {
    split(VILS_9_STRAGGLER_SOCOTRA_TEXT@, '\n') + numbered(VILS_9_STRAGGLER_SOCOTRA_TEMPLATE@, 0, 3)
}

/// The Socotra variant of [`vils_9_straggler`], which keeps the tree with
/// the lumberjacks as close to the map edge as it can.
pub fn vils_9_straggler_socotra() -> (r: Vec<String>)
    ensures
        views(r@) == vils_9_straggler_socotra_spec(),
{
    let mut lines: Vec<String> = Vec::new();
    push_text(&mut lines, VILS_9_STRAGGLER_SOCOTRA_TEXT);
    push_numbered(&mut lines, VILS_9_STRAGGLER_SOCOTRA_TEMPLATE, 0, 3);
    assert(views(lines@) =~= vils_9_straggler_socotra_spec());
    lines
}

/// The stragglers: fixed lines.
pub const MULTI_STRAGGLERS_TEXT: &'static str = "create_object GRASS_STRAGGLER {\n\
set_place_for_every_player\n\
set_gaia_object_only\n\
avoid_forest_zone 2\n\
actor_area_to_place_in box5\n\
avoid_actor_area box4\n\
avoid_actor_area house2\n\
actor_area villager_tree0\n\
actor_area_radius 0\n\
max_distance_to_players 10\n\
avoid_actor_area snow-region\n\
avoid_actor_area dirt-region\n\
avoid_actor_area jungle-region\n\
}\n\
create_object SNOW_STRAGGLER {\n\
set_place_for_every_player\n\
set_gaia_object_only\n\
avoid_forest_zone 2\n\
actor_area_to_place_in box5\n\
avoid_actor_area box4\n\
avoid_actor_area house2\n\
actor_area villager_tree0\n\
actor_area_radius 0\n\
max_distance_to_players 10\n\
avoid_actor_area grass-region\n\
avoid_actor_area dirt-region\n\
avoid_actor_area jungle-region\n\
}\n\
create_object DIRT_STRAGGLER {\n\
set_place_for_every_player\n\
set_gaia_object_only\n\
avoid_forest_zone 2\n\
actor_area_to_place_in box5\n\
avoid_actor_area box4\n\
avoid_actor_area house2\n\
actor_area villager_tree0\n\
actor_area_radius 0\n\
max_distance_to_players 10\n\
avoid_actor_area grass-region\n\
avoid_actor_area snow-region\n\
avoid_actor_area jungle-region\n\
}\n\
create_object JUNGLE_STRAGGLER {\n\
set_place_for_every_player\n\
set_gaia_object_only\n\
avoid_forest_zone 2\n\
actor_area_to_place_in box5\n\
avoid_actor_area box4\n\
avoid_actor_area house2\n\
actor_area villager_tree0\n\
actor_area_radius 0\n\
max_distance_to_players 10\n\
avoid_actor_area grass-region\n\
avoid_actor_area snow-region\n\
avoid_actor_area dirt-region\n\
}\n\
create_object PHON {\n\
set_place_for_every_player\n\
set_gaia_object_only\n\
actor_area_to_place_in villager_tree0\n\
actor_area villager_tree1\n\
actor_area_radius 1\n\
max_distance_to_players 10\n\
}\n\
create_object PHON {\n\
set_place_for_every_player\n\
set_gaia_object_only\n\
actor_area_to_place_in villager_tree0\n\
actor_area straggler2\n\
actor_area_radius 2\n\
max_distance_to_players 10\n\
}\n\
create_object GRASS_STRAGGLER {\n\
number_of_objects 2\n\
set_place_for_every_player\n\
set_gaia_object_only\n\
temp_min_distance_group_placement 2\n\
avoid_forest_zone 2\n\
actor_area_to_place_in box4\n\
avoid_actor_area box3\n\
avoid_actor_area house1\n\
avoid_actor_area straggler0\n\
actor_area straggler0\n\
actor_area_radius 0\n\
max_distance_to_players 10\n\
avoid_actor_area snow-region\n\
avoid_actor_area dirt-region\n\
avoid_actor_area jungle-region\n\
}\n\
create_object SNOW_STRAGGLER {\n\
number_of_objects 2\n\
set_place_for_every_player\n\
set_gaia_object_only\n\
temp_min_distance_group_placement 2\n\
avoid_forest_zone 2\n\
actor_area_to_place_in box4\n\
avoid_actor_area box3\n\
avoid_actor_area house1\n\
avoid_actor_area straggler0\n\
actor_area straggler0\n\
actor_area_radius 0\n\
max_distance_to_players 10\n\
avoid_actor_area grass-region\n\
avoid_actor_area dirt-region\n\
avoid_actor_area jungle-region\n\
}\n\
create_object DIRT_STRAGGLER {\n\
number_of_objects 2\n\
set_place_for_every_player\n\
set_gaia_object_only\n\
temp_min_distance_group_placement 2\n\
avoid_forest_zone 2\n\
actor_area_to_place_in box4\n\
avoid_actor_area box3\n\
avoid_actor_area house1\n\
avoid_actor_area straggler0\n\
actor_area straggler0\n\
actor_area_radius 0\n\
max_distance_to_players 10\n\
avoid_actor_area grass-region\n\
avoid_actor_area snow-region\n\
avoid_actor_area jungle-region\n\
}\n\
create_object JUNGLE_STRAGGLER {\n\
number_of_objects 2\n\
set_place_for_every_player\n\
set_gaia_object_only\n\
temp_min_distance_group_placement 2\n\
avoid_forest_zone 2\n\
actor_area_to_place_in box4\n\
avoid_actor_area box3\n\
avoid_actor_area house1\n\
avoid_actor_area straggler0\n\
actor_area straggler0\n\
actor_area_radius 0\n\
max_distance_to_players 10\n\
avoid_actor_area grass-region\n\
avoid_actor_area snow-region\n\
avoid_actor_area dirt-region\n\
}\n\
create_object PHON {\n\
number_of_objects 2\n\
set_place_for_every_player\n\
set_gaia_object_only\n\
actor_area_to_place_in straggler0\n\
actor_area straggler2\n\
actor_area_radius 2\n\
max_distance_to_players 10\n\
}\n\
create_object GRASS_STRAGGLER {\n\
number_of_objects 2\n\
set_place_for_every_player\n\
set_gaia_object_only\n\
temp_min_distance_group_placement 2\n\
avoid_forest_zone 2\n\
actor_area_to_place_in box5\n\
avoid_actor_area box4\n\
avoid_actor_area house1\n\
avoid_actor_area straggler0\n\
actor_area straggler0\n\
actor_area_radius 0\n\
max_distance_to_players 10\n\
avoid_actor_area snow-region\n\
avoid_actor_area dirt-region\n\
avoid_actor_area jungle-region\n\
}\n\
create_object SNOW_STRAGGLER {\n\
number_of_objects 2\n\
set_place_for_every_player\n\
set_gaia_object_only\n\
temp_min_distance_group_placement 2\n\
avoid_forest_zone 2\n\
actor_area_to_place_in box5\n\
avoid_actor_area box4\n\
avoid_actor_area house1\n\
avoid_actor_area straggler0\n\
actor_area straggler0\n\
actor_area_radius 0\n\
max_distance_to_players 10\n\
avoid_actor_area grass-region\n\
avoid_actor_area dirt-region\n\
avoid_actor_area jungle-region\n\
}\n\
create_object DIRT_STRAGGLER {\n\
number_of_objects 2\n\
set_place_for_every_player\n\
set_gaia_object_only\n\
temp_min_distance_group_placement 2\n\
avoid_forest_zone 2\n\
actor_area_to_place_in box5\n\
avoid_actor_area box4\n\
avoid_actor_area house1\n\
avoid_actor_area straggler0\n\
actor_area straggler0\n\
actor_area_radius 0\n\
max_distance_to_players 10\n\
avoid_actor_area grass-region\n\
avoid_actor_area snow-region\n\
avoid_actor_area jungle-region\n\
}\n\
create_object JUNGLE_STRAGGLER {\n\
number_of_objects 2\n\
set_place_for_every_player\n\
set_gaia_object_only\n\
temp_min_distance_group_placement 2\n\
avoid_forest_zone 2\n\
actor_area_to_place_in box5\n\
avoid_actor_area box4\n\
avoid_actor_area house1\n\
avoid_actor_area straggler0\n\
actor_area straggler0\n\
actor_area_radius 0\n\
max_distance_to_players 10\n\
avoid_actor_area grass-region\n\
avoid_actor_area snow-region\n\
avoid_actor_area dirt-region\n\
}\n\
create_object PHON {\n\
number_of_objects 4\n\
set_place_for_every_player\n\
set_gaia_object_only\n\
actor_area_to_place_in straggler0\n\
actor_area straggler2\n\
actor_area_radius 2\n\
max_distance_to_players 10\n\
}\n\
create_object PHON {\n\
set_place_for_every_player\n\
set_gaia_object_only\n\
actor_area_to_place_in villager_tree0\n\
actor_area straggler2\n\
actor_area_radius 2\n\
max_distance_to_players 10\n\
}";

/// The stragglers: block for each number, which stands for `$`.
pub const MULTI_STRAGGLERS_TEMPLATE: &'static str = "create_object LUMBERJACK$ {\n\
max_distance_to_players 10\n\
set_place_for_every_player\n\
actor_area_to_place_in villager_tree1\n\
actor_area villager0\n\
actor_area_radius 0\n\
}";

/// The lines of [`multi_stragglers`].
pub open spec fn multi_stragglers_spec() -> Seq<Seq<char>> {
    split(MULTI_STRAGGLERS_TEXT@, '\n') + numbered(MULTI_STRAGGLERS_TEMPLATE@, 0, 3)
}

/// Returns the lines for straggler trees with a start of two Town Centers.
pub fn multi_stragglers() -> (r: Vec<String>)
    ensures
        views(r@) == multi_stragglers_spec(),
{
    let mut lines: Vec<String> = Vec::new();
    push_text(&mut lines, MULTI_STRAGGLERS_TEXT);
    push_numbered(&mut lines, MULTI_STRAGGLERS_TEMPLATE, 0, 3);
    assert(views(lines@) =~= multi_stragglers_spec());
    lines
}

/// The revealers: fixed lines.
pub const VISION_TEXT: &'static str = "create_object TEMPORARY_REVEALER {\n\
number_of_objects 4\n\
actor_area_to_place_in box0\n\
set_place_for_every_player\n\
max_distance_to_players 2\n\
}";

/// The lines of [`vision`].
pub open spec fn vision_spec() -> Seq<Seq<char>> {
    split(VISION_TEXT@, '\n')
}

/// Returns the lines that place temporary revealers inside `box0` near the
/// Town Center.
pub fn vision() -> (r: Vec<String>)
    ensures
        views(r@) == vision_spec(),
{
    let mut lines: Vec<String> = Vec::new();
    push_text(&mut lines, VISION_TEXT);
    assert(views(lines@) =~= vision_spec());
    lines
}


/// The first lines of [`objects_9_vils`]: the Town Center itself.
pub const OBJECTS_9_VILS_TEXT: &'static str = "create_object TOWN_CENTER {\n\
set_place_for_every_player\n\
max_distance_to_players 0\n\
}";

/// The actor area `villager{$}` around the Villagers, for each number.
pub const OBJECTS_9_VILS_TEMPLATE: &'static str = "create_object PHON {\n\
number_of_objects 9\n\
set_place_for_every_player\n\
set_gaia_object_only\n\
actor_area_to_place_in villager0\n\
actor_area villager$\n\
actor_area_radius $\n\
}";

/// The lines of [`objects_9_vils`].
pub open spec fn objects_9_vils_spec() -> Seq<Seq<char>> {
    split(OBJECTS_9_VILS_TEXT@, '\n') + tc_center_spec() + tc_boxes_spec() + vision_spec()
        + vils_9_tc_spec() + house_gap_3_spec() + vils_9_straggler_spec() + numbered(
        OBJECTS_9_VILS_TEMPLATE@,
        1,
        9,
    )
}

/// Returns all the object lines of a start with nine Villagers: the Town
/// Center, its placeholders and boxes, vision, Villagers, Houses,
/// stragglers, and the actor areas `villager1` to `villager9`.
pub fn objects_9_vils() -> (r: Vec<String>)
    ensures
        views(r@) == objects_9_vils_spec(),
{
    let mut lines: Vec<String> = Vec::new();
    push_text(&mut lines, OBJECTS_9_VILS_TEXT);
    let ghost l0 = views(lines@);
    lines.append(&mut tc_center());
    let ghost l1 = views(lines@);
    assert(l1 =~= l0 + tc_center_spec());
    lines.append(&mut tc_boxes());
    let ghost l2 = views(lines@);
    assert(l2 =~= l1 + tc_boxes_spec());
    lines.append(&mut vision());
    let ghost l3 = views(lines@);
    assert(l3 =~= l2 + vision_spec());
    lines.append(&mut vils_9_tc());
    let ghost l4 = views(lines@);
    assert(l4 =~= l3 + vils_9_tc_spec());
    lines.append(&mut house_gap_3());
    let ghost l5 = views(lines@);
    assert(l5 =~= l4 + house_gap_3_spec());
    lines.append(&mut vils_9_straggler());
    let ghost l6 = views(lines@);
    assert(l6 =~= l5 + vils_9_straggler_spec());
    push_numbered(&mut lines, OBJECTS_9_VILS_TEMPLATE, 1, 10);
    assert(views(lines@) =~= objects_9_vils_spec());
    lines
}

/// The word of the House lines that the Hut variant replaces.
pub const HOUSE: &'static str = "HOUSE";

/// The word that the Hut variant puts in place of [`HOUSE`].
pub const HUT: &'static str = "HUT";

/// The lines of [`hut_gap_3`].
pub open spec fn hut_gap_3_spec() -> Seq<Seq<char>> {
    house_gap_3_spec().map_values(|l: Seq<char>| replace_all(l, HOUSE@, HUT@))
}

/// The same as [`house_gap_3`], with Huts in place of Houses.
pub fn hut_gap_3() -> (r: Vec<String>)
    ensures
        views(r@) == hut_gap_3_spec(),
{
    proof {
        reveal_strlit("HOUSE");
    }
    let houses = house_gap_3();
    let mut lines: Vec<String> = Vec::new();
    let mut k: usize = 0;
    while k < houses.len()
        invariant
            k <= houses@.len(),
            HOUSE@.len() > 0,
            views(houses@) == house_gap_3_spec(),
            views(lines@) == house_gap_3_spec().subrange(0, k as int).map_values(
                |l: Seq<char>| replace_all(l, HOUSE@, HUT@),
            ),
        decreases houses@.len() - k,
    {
        let t = replace_str(houses[k].as_str(), HOUSE, HUT);
        let ghost l0 = views(lines@);
        lines.push(t);
        assert(views(lines@) =~= l0.push(t@));
        assert(views(lines@) =~= house_gap_3_spec().subrange(0, k + 1).map_values(
            |l: Seq<char>| replace_all(l, HOUSE@, HUT@),
        ));
        k = k + 1;
    }
    assert(house_gap_3_spec().subrange(0, k as int) =~= house_gap_3_spec());
    lines
}

/// The flag line that the ZeWall variant turns into one copy per land.
pub const EVERY_PLAYER_LINE: &'static str = "set_place_for_every_player";

/// The lines made from `ls` by the ZeWall variant, given the open block
/// `obj`, whether it was flagged, and the output `out` so far: a flagged
/// block becomes one copy for each of the lands 1 to 4, without the flag.
pub open spec fn ze_wall_from(
    ls: Seq<Seq<char>>,
    obj: Seq<Seq<char>>,
    flagged: bool,
    out: Seq<Seq<char>>,
) -> Seq<Seq<char>>
    decreases ls.len(),
{
    if ls.len() == 0 {
        out
    } else {
        let l = ls[0];
        let rest = ls.skip(1);
        if l == BLOCK_CLOSE@ {
            ze_wall_from(
                rest,
                Seq::empty(),
                false,
                out + if flagged {
                    copies(obj, 4)
                } else {
                    obj.push(BLOCK_CLOSE@)
                },
            )
        } else if l == EVERY_PLAYER_LINE@ {
            ze_wall_from(rest, obj, true, out)
        } else {
            ze_wall_from(rest, obj.push(l), flagged, out)
        }
    }
}

/// The lines of [`objects_9_vils_ze_wall`].
pub open spec fn objects_9_vils_ze_wall_spec() -> Seq<Seq<char>> {
    ze_wall_from(objects_9_vils_spec(), Seq::empty(), false, Seq::empty())
}

/// The nine-Villager start for ZeWall: the lines of [`objects_9_vils`], with
/// each block placed for every player turned into one copy for each of the
/// lands 1 to 4, tied to it by `place_on_specific_land_id`.
pub fn objects_9_vils_ze_wall() -> (r: Vec<String>)
    ensures
        views(r@) == objects_9_vils_ze_wall_spec(),
{
    let standard = objects_9_vils();
    let ghost ls = views(standard@);
    let mut object: Vec<String> = Vec::new();
    let mut flagged = false;
    let mut lines: Vec<String> = Vec::new();
    let mut i: usize = 0;
    assert(ls.skip(0) =~= ls);
    assert(views(lines@) =~= Seq::<Seq<char>>::empty());
    assert(views(object@) =~= Seq::<Seq<char>>::empty());
    while i < standard.len()
        invariant
            ls == views(standard@),
            i <= standard@.len(),
            ls == objects_9_vils_spec(),
            objects_9_vils_ze_wall_spec() == ze_wall_from(
                ls.skip(i as int),
                views(object@),
                flagged,
                views(lines@),
            ),
        decreases standard@.len() - i,
    {
        let ghost rest = ls.skip(i as int);
        assert(rest.skip(1) =~= ls.skip(i + 1));
        assert(rest[0] == standard@[i as int]@);
        let line = standard[i].clone();
        let ghost o0 = views(lines@);
        let ghost b0 = views(object@);
        if line == String::from_str(BLOCK_CLOSE) {
            if flagged {
                let mut land: u64 = 1;
                assert(o0 + copies(b0, 0) =~= o0);
                while land <= 4
                    invariant
                        1 <= land <= 5,
                        views(object@) == b0,
                        views(lines@) == o0 + copies(b0, (land - 1) as nat),
                    decreases 5 - land,
                {
                    let mut k: usize = 0;
                    let ghost o1 = views(lines@);
                    while k < object.len()
                        invariant
                            k <= object@.len(),
                            views(object@) == b0,
                            views(lines@) == o1 + b0.subrange(0, k as int),
                        decreases object@.len() - k,
                    {
                        let ghost o2 = views(lines@);
                        let copy = object[k].clone();
                        lines.push(copy);
                        assert(views(lines@) =~= o2.push(copy@));
                        assert(views(lines@) =~= o1 + b0.subrange(0, k + 1));
                        k = k + 1;
                    }
                    assert(b0.subrange(0, k as int) =~= b0);
                    let mut place: Vec<char> = Vec::new();
                    push_str(&mut place, PLACE_ON_LAND);
                    push_decimal(&mut place, land as u128);
                    let ghost o3 = views(lines@);
                    let place_line = string_of(&place);
                    let close = String::from_str(BLOCK_CLOSE);
                    lines.push(place_line);
                    lines.push(close);
                    assert(views(lines@) =~= o3.push(place_line@).push(close@));
                    assert(place_line@ == land_line(land as nat));
                    assert(views(lines@) =~= o0 + copies(b0, land as nat));
                    land = land + 1;
                }
            } else {
                let mut k: usize = 0;
                while k < object.len()
                    invariant
                        k <= object@.len(),
                        views(object@) == b0,
                        views(lines@) == o0 + b0.subrange(0, k as int),
                    decreases object@.len() - k,
                {
                    let ghost o2 = views(lines@);
                    let copy = object[k].clone();
                    lines.push(copy);
                    assert(views(lines@) =~= o2.push(copy@));
                    assert(views(lines@) =~= o0 + b0.subrange(0, k + 1));
                    k = k + 1;
                }
                assert(b0.subrange(0, k as int) =~= b0);
                let ghost o3 = views(lines@);
                let close = String::from_str(BLOCK_CLOSE);
                lines.push(close);
                assert(views(lines@) =~= o3.push(close@));
                assert(views(lines@) =~= o0 + b0.push(BLOCK_CLOSE@));
            }
            flagged = false;
            object = Vec::new();
            assert(views(object@) =~= Seq::<Seq<char>>::empty());
        } else if line == String::from_str(EVERY_PLAYER_LINE) {
            flagged = true;
        } else {
            object.push(line);
            assert(views(object@) =~= b0.push(rest[0]));
        }
        i = i + 1;
    }
    assert(ls.skip(i as int) =~= Seq::<Seq<char>>::empty());
    lines
}

} // verus!
