use preprocessor::actorgen::{
    house_gap_3, hut_gap_3, make_constants, objects_9_vils, objects_9_vils_ze_wall, tc_boxes,
    tc_center, vision,
};
use preprocessor::circlegen::{list_p1_random_selection, push_cliff_lands};
use preprocessor::landgen::{
    bf_ally, bf_flank, define_labels, land_string, prefix_p1_slot, remove_road_pond, rnd_pos,
    sort_ponds, direction_labels, four_seasons_lands, opponent_probability,
    rock_border, snake_borders, snake_land_line, Slot,
};

/// Tests the opponent probability calculations.
#[test]
fn test_probs() {
    assert_eq!(0, opponent_probability(Slot(0), Slot(0)));
    assert_eq!(0, opponent_probability(Slot(0), Slot(5)));
    assert_eq!(0, opponent_probability(Slot(0), Slot(6)));
    assert_eq!(10, opponent_probability(Slot(0), Slot(7)));
    assert_eq!(16, opponent_probability(Slot(0), Slot(8)));
    assert_eq!(16, opponent_probability(Slot(0), Slot(9)));
    assert_eq!(16, opponent_probability(Slot(0), Slot(10)));
    assert_eq!(16, opponent_probability(Slot(0), Slot(11)));
    assert_eq!(16, opponent_probability(Slot(0), Slot(12)));
    assert_eq!(10, opponent_probability(Slot(0), Slot(13)));
    assert_eq!(0, opponent_probability(Slot(0), Slot(14)));
    assert_eq!(0, opponent_probability(Slot(0), Slot(15)));
    assert_eq!(0, opponent_probability(Slot(0), Slot(19)));

    assert_eq!(16, opponent_probability(Slot(11), Slot(0)));
}

#[test]
fn make_constants_lines() {
    let lines = make_constants();
    assert_eq!(lines.len(), 5 + 6 * 4 + 3 * 4);
    assert_eq!(lines[0], "#const PHOFF 649");
    assert_eq!(lines[5], "start_random");
    assert_eq!(lines[6], "percent_chance 50 #const SHEP0 590");
    assert_eq!(lines[27], "percent_chance 50 #const SHEP5 592");
    assert_eq!(lines[40], "end_random");
    assert_eq!(lines[38], "percent_chance 50 #const LUMBERJACK2 123");
}

#[test]
fn tc_boxes_numbered_blocks() {
    let lines = tc_boxes();
    assert_eq!(lines.len(), 4 * 7 + 63 * 8);
    assert_eq!(lines[3], "actor_area_to_place_in tc_a");
    assert_eq!(lines[24], "actor_area_to_place_in tc_d");
    assert_eq!(lines[28 + 5], "actor_area box1");
    assert_eq!(lines[28 + 62 * 8 + 6], "actor_area_radius 63");
}

#[test]
fn tc_center_and_vision_texts() {
    let center = tc_center();
    assert_eq!(center[0], "create_object PHON {");
    assert_eq!(center.last().unwrap(), "}");
    assert_eq!(vision().len(), 6);
    assert_eq!(vision()[0], "create_object TEMPORARY_REVEALER {");
}

#[test]
fn hut_gap_replaces_houses() {
    let houses = house_gap_3();
    let huts = hut_gap_3();
    assert_eq!(houses.len(), huts.len());
    assert!(houses.iter().any(|l| l.contains("HOUSE")));
    assert!(huts.iter().all(|l| !l.contains("HOUSE")));
    for (h, u) in houses.iter().zip(huts.iter()) {
        assert_eq!(h.replace("HOUSE", "HUT"), *u);
    }
}

#[test]
fn ze_wall_objects_are_tied_to_four_lands() {
    let standard = objects_9_vils();
    assert_eq!(standard[0], "create_object TOWN_CENTER {");
    let ze = objects_9_vils_ze_wall();
    assert!(ze.iter().all(|l| l != "set_place_for_every_player"));
    assert_eq!(
        &ze[0..8],
        &[
            "create_object TOWN_CENTER {",
            "max_distance_to_players 0",
            "place_on_specific_land_id 1",
            "}",
            "create_object TOWN_CENTER {",
            "max_distance_to_players 0",
            "place_on_specific_land_id 2",
            "}"
        ]
    );
}

#[test]
fn label_blocks() {
    let labels = define_labels();
    assert_eq!(labels.len(), 1 + 20 + 2 + 7 + 1);
    assert_eq!(labels[1], "percent_chance 5 #define P1_SLOT_0");
    assert_eq!(labels[20], "percent_chance 5 #define P1_SLOT_19");
    assert_eq!(labels[23], "percent_chance 10 #define P2_POS_0");
    let dirs = direction_labels();
    assert_eq!(dirs.len(), 102);
    assert_eq!(dirs[100], "percent_chance 1 #define DIRECTION99");
    let points = list_p1_random_selection();
    assert_eq!(points[1], "percent_chance 1 #define P1_POINT_0");
    assert_eq!(points[101], "end_random");
}

#[test]
fn rock_and_snake_borders() {
    let rocks = rock_border();
    assert_eq!(rocks.len(), 101 * 16);
    assert_eq!(rocks[1], "land_position 0 0");
    assert_eq!(rocks[9], "land_position 0 99");
    assert_eq!(rocks[15 * 16 + 1], "land_position 15 0");
    assert_eq!(
        snake_land_line(2, 7, 100),
        "create_land {\nterrain_type DLC_MANGROVESHALLOW\nnumber_of_tiles 0\nbase_size 2\nland_position 7 100\n}"
    );
    let borders = snake_borders();
    assert_eq!(borders.len(), 404);
    assert_eq!(borders[3], snake_land_line(2, 1, 100));
    assert_eq!(borders[202 + 4], snake_land_line(1, 0, 2));
    let middle = four_seasons_lands();
    assert_eq!(middle.len(), 202);
    assert_eq!(
        middle[101 + 3],
        "create_land { land_position 50 3 base_size 1 number_of_tiles 0 terrain_type DLC_ROCK }"
    );
}

#[test]
fn black_forest_allies_and_flanks() {
    assert_eq!(
        (0..4).map(bf_ally).collect::<Vec<_>>(),
        vec![1, 1, 3, 2]
    );
    assert_eq!((0..4).map(bf_flank).collect::<Vec<_>>(), vec![3, 2, 1, 0]);
}

#[test]
fn ponds_sorted_by_distance_stably() {
    let mut ponds = vec![(10, 0), (0, 3), (3, 0), (-2, 0), (0, -3), (5, 5), (1, 1)];
    sort_ponds(&mut ponds, (0, 0));
    assert_eq!(ponds, vec![(1, 1), (-2, 0), (0, 3), (3, 0), (0, -3), (5, 5), (10, 0)]);
}

#[test]
fn road_pond_is_the_nearest() {
    let mut ponds = vec![(10, 0), (0, 3), (1, 0), (-2, 0), (0, 1), (5, 5), (4, 4), (0, 9)];
    remove_road_pond(&mut ponds, (0, 0));
    assert_eq!(ponds, vec![(10, 0), (0, 9), (5, 5), (4, 4), (0, 3), (-2, 0), (1, 0)]);
}

#[test]
fn random_position_is_clamped() {
    assert_eq!(rnd_pos(50, 20), "land_position rnd(49,51) rnd(19,21)");
    assert_eq!(rnd_pos(0, 99), "land_position rnd(1,1) rnd(98,98)");
    assert_eq!(rnd_pos(-5, 1), "land_position rnd(1,1) rnd(1,2)");
}

#[test]
fn forest_land_line() {
    assert_eq!(
        land_string(&(12, 90)),
        "create_land { land_position 12 90 terrain_type OUTSIDE_FOREST base_size 4 number_of_tiles 128 clumping_factor 40 }"
    );
}

#[test]
fn slot_prefixes() {
    assert_eq!(prefix_p1_slot(Slot(0)), "if");
    assert_eq!(prefix_p1_slot(Slot(7)), "elseif");
}

#[test]
fn cliff_lands_around_a_point() {
    let mut lines = vec![String::from("before")];
    push_cliff_lands(&mut lines, 2, 10, 20);
    assert_eq!(lines.len(), 1 + 4 * 7);
    assert_eq!(
        &lines[1..8],
        &[
            "create_land {",
            "terrain_type PLAYER_PLACEHOLDER_2",
            "base_size 0",
            "number_of_tiles 0",
            "zone 2",
            "land position 6 16",
            "}"
        ]
    );
    assert_eq!(lines[13], "land position 6 24");
    assert_eq!(lines[20], "land position 14 16");
    assert_eq!(lines[27], "land position 14 24");
}

#[test]
fn renormalize_adds_shortfall_in_the_middle() {
    let mut p = vec![0, 10, 20, 30, 0];
    preprocessor::circlegen::renormalize_probabilities(&mut p, 1, 3);
    assert_eq!(p, vec![0, 10, 60, 30, 0]);
}

#[test]
fn renormalize_trims_excess_from_the_ends() {
    let mut p = vec![0, 2, 50, 50, 3, 0];
    preprocessor::circlegen::renormalize_probabilities(&mut p, 1, 4);
    assert_eq!(p, vec![0, 0, 49, 50, 1, 0]);
    assert_eq!(p.iter().sum::<u32>(), 100);
}

#[test]
fn player_positions() {
    let p1 = preprocessor::landgen::p1_position();
    assert_eq!(p1.len(), 41);
    assert_eq!(p1[0], "if P1_SLOT_0");
    assert_eq!(p1[1], "land_position rnd(25,34) rnd(17,25)");
    assert_eq!(p1[2], "elseif P1_SLOT_1");
    assert_eq!(p1[3], "land_position rnd(35,45) rnd(17,25)");
    assert_eq!(p1[11], "land_position rnd(75,83) rnd(25,34)");
    assert_eq!(p1[21], "land_position rnd(66,75) rnd(75,83)");
    assert_eq!(p1[31], "land_position rnd(17,25) rnd(66,75)");
    assert_eq!(p1[40], "endif");
    let p2 = preprocessor::landgen::p2_position();
    assert_eq!(p2.len(), 20 * 9 + 1);
    assert_eq!(p2[0], "if P1_SLOT_0");
    assert_eq!(p2[1], "if P2_POS_0\nland_position rnd(75,83) rnd(45,55)");
    assert_eq!(p2[2], "elseif P2_POS_1\nland_position rnd(75,83) rnd(55,65)");
    assert_eq!(p2[8], "endif");
    assert_eq!(p2[180], "endif");
}
