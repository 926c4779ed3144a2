use preprocessor::actor_areas::substitute_actor_area_names;
use preprocessor::error::PreprocessError;
use preprocessor::objects::assign_objects;
use preprocessor::repeat::{parse_repeat_count, repeat_lines, RepeatLines};

fn owned(lines: &[&str]) -> Vec<String> {
    lines.iter().map(|s| s.to_string()).collect()
}

#[test]
fn repeat_three_times_two_lines() {
    let out = repeat_lines(owned(&["#REPEAT(3)", "a", "b", "#END_REPEAT"])).unwrap();
    assert_eq!(out, vec!["a", "b", "a", "b", "a", "b"]);
}

#[test]
fn repeat_zero_times_gives_nothing() {
    let out = repeat_lines(owned(&["x", "#REPEAT(0)", "a", "b", "#END_REPEAT", "y"])).unwrap();
    assert_eq!(out, vec!["x", "y"]);
}

#[test]
fn repeat_nested_blocks() {
    let out = repeat_lines(owned(&[
        "#REPEAT(2)",
        "a",
        "#repeat(2)",
        "b",
        "#end_repeat",
        "#END_REPEAT",
    ]))
    .unwrap();
    assert_eq!(out, vec!["a", "b", "b", "a", "b", "b"]);
}

#[test]
fn repeat_close_without_open_fails() {
    assert_eq!(
        repeat_lines(owned(&["a", "#END_REPEAT"])),
        Err(PreprocessError::UnexpectedEndRepeat)
    );
}

#[test]
fn repeat_unterminated_fails() {
    assert_eq!(
        repeat_lines(owned(&["#REPEAT(2)", "a"])),
        Err(PreprocessError::UnterminatedRepeat)
    );
}

#[test]
fn repeat_count_not_a_number_fails() {
    assert_eq!(
        repeat_lines(owned(&["#REPEAT(x)", "a", "#END_REPEAT"])),
        Err(PreprocessError::MalformedRepeatCount)
    );
}

#[test]
fn parse_repeat_count_reads_number() {
    assert_eq!(parse_repeat_count("#REPEAT(15)"), Some(15));
    assert_eq!(parse_repeat_count("#REPEAT(+7)"), Some(7));
    assert_eq!(parse_repeat_count("#REPEAT()"), None);
    assert_eq!(parse_repeat_count("#REPEAT(3"), None);
}

#[test]
fn repeat_lines_text_joins_copies() {
    let mut block = RepeatLines::new(3);
    block.push_line(String::from("a"));
    block.push_line(String::from("b"));
    assert_eq!(block.get_text(), "a\nb\na\nb\na\nb");
    assert_eq!(RepeatLines::new(0).get_text(), "");
}

#[test]
fn place_eight_copies_each_numbered() {
    let out = assign_objects(owned(&["create_object VILLAGER {", "number_of_objects 2", "#PLACE8", "}"]))
        .unwrap();
    let mut expected = Vec::new();
    for k in 1..=8 {
        expected.push(String::from("create_object VILLAGER {"));
        expected.push(String::from("number_of_objects 2"));
        expected.push(format!("place_on_specific_land_id {k}"));
        expected.push(String::from("}"));
    }
    assert_eq!(out, expected);
}

#[test]
fn every_player_flag_gives_two_copies() {
    let out = assign_objects(owned(&[
        "a",
        "create_object X {",
        "#SET_PLACE_FOR_EVERY_PLAYER",
        "}",
        "create_object Y {",
        "}",
    ]))
    .unwrap();
    assert_eq!(
        out,
        vec![
            "a",
            "create_object X {",
            "place_on_specific_land_id 1",
            "}",
            "create_object X {",
            "place_on_specific_land_id 2",
            "}",
            "create_object Y {",
            "}"
        ]
    );
}

#[test]
fn player_flag_outside_object_fails() {
    assert_eq!(
        assign_objects(owned(&["#set_place_for_every_player"])),
        Err(PreprocessError::PlayerFlagOutsideObject)
    );
    assert_eq!(
        assign_objects(owned(&["#PLACE8"])),
        Err(PreprocessError::PlayerFlagOutsideObject)
    );
}

#[test]
fn object_never_closed_fails() {
    assert_eq!(
        assign_objects(owned(&["create_object X {", "number_of_objects 1"])),
        Err(PreprocessError::ObjectNotClosed)
    );
}

#[test]
fn actor_areas_get_ids_in_declaration_order() {
    let out = substitute_actor_area_names(owned(&[
        "actor_area foo",
        "actor_area bar",
        "actor_area foo",
        "avoid_actor_area bar",
        "actor_area_to_place_in foo",
        "create_actor_area 10 20 baz 3",
        "actor_area baz",
        "avoid_actor_area missing",
        "actor_area_radius 2",
    ]))
    .unwrap();
    assert_eq!(
        out,
        vec![
            "actor_area 20000",
            "actor_area 20001",
            "actor_area 20000",
            "avoid_actor_area 20001",
            "actor_area_to_place_in 20000",
            "create_actor_area 10 20 20002 3",
            "actor_area 20002",
            "avoid_actor_area missing",
            "actor_area_radius 2"
        ]
    );
}

#[test]
fn create_actor_area_without_name_fails() {
    assert_eq!(
        substitute_actor_area_names(owned(&["create_actor_area 5"])),
        Err(PreprocessError::MalformedActorArea)
    );
}
