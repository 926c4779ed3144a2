use preprocessor::error::PreprocessError;
use preprocessor::macros::{insert_macros, outside_requests, parse_directive, ArgMacro, Directive, Macro};
use preprocessor::pipeline::{collect_header_comment, join_until_break, process_lines, trim};

fn owned(lines: &[&str]) -> Vec<String> {
    lines.iter().map(|s| s.to_string()).collect()
}

#[test]
fn plain_script_passes_through() {
    let out = process_lines(owned(&["create_land {", "land_position 5 5", "}"]), vec![]).unwrap();
    assert_eq!(out, "create_land {\nland_position 5 5\n}");
}

#[test]
fn plain_script_is_condensed() {
    let out = process_lines(owned(&["  create_land   {", "", "land_position  5 5 /* here */", "}  "]), vec![])
        .unwrap();
    assert_eq!(out, "create_land {\nland_position 5 5\n}");
}

#[test]
fn repeat_scenario() {
    let out = process_lines(owned(&["#REPEAT(2)", "foo", "#END_REPEAT"]), vec![]).unwrap();
    assert_eq!(out, "foo\nfoo");
}

#[test]
fn place8_scenario() {
    let out = process_lines(owned(&["create_object X {", "#PLACE8", "}"]), vec![]).unwrap();
    let lines: Vec<&str> = out.split('\n').collect();
    assert_eq!(lines.len(), 24);
    for k in 1..=8 {
        assert_eq!(lines[3 * (k - 1)], "create_object X {");
        assert_eq!(lines[3 * (k - 1) + 1], format!("place_on_specific_land_id {k}"));
        assert_eq!(lines[3 * (k - 1) + 2], "}");
    }
}

#[test]
fn header_is_kept_in_front() {
    let out = process_lines(
        owned(&["  #header_start ", "/* keep me */", "#HEADER_END", "a  b", "#break now", "c"]),
        vec![],
    )
    .unwrap();
    assert_eq!(out, "/* keep me */\na b");
}

#[test]
fn header_split() {
    let (h, rest) = collect_header_comment(owned(&["#HEADER_START", "x", "#Header_End", "y"])).unwrap();
    assert_eq!(h, vec!["x"]);
    assert_eq!(rest, vec!["y"]);
    let (h, rest) = collect_header_comment(owned(&["a", "#HEADER_END"])).unwrap();
    assert!(h.is_empty());
    assert_eq!(rest, vec!["a", "#HEADER_END"]);
}

#[test]
fn header_never_ends_fails() {
    assert_eq!(
        collect_header_comment(owned(&["#HEADER_START", "x"])),
        Err(PreprocessError::HeaderNeverEnds)
    );
}

#[test]
fn break_marker_cuts_output() {
    assert_eq!(join_until_break(&owned(&["a", "b", "x #Break y", "c"])), "a\nb");
    assert_eq!(join_until_break(&owned(&["a", "b"])), "a\nb");
    assert_eq!(join_until_break(&owned(&[])), "");
}

#[test]
fn trim_removes_outer_whitespace() {
    assert_eq!(trim(" \t a b \n"), "a b");
    assert_eq!(trim("   "), "");
}

#[test]
fn library_macro_is_expanded_in_any_case() {
    let out = process_lines(owned(&["#vision"]), vec![]).unwrap();
    assert_eq!(
        out,
        "create_object TEMPORARY_REVEALER {\nnumber_of_objects 4\nactor_area_to_place_in box0\nset_place_for_every_player\nmax_distance_to_players 2\n}"
    );
}

#[test]
fn directives_are_recognised() {
    assert!(matches!(parse_directive("#TCCENTER"), Ok(Directive::Plain(Macro::TcCenter))));
    assert!(matches!(parse_directive("#bflands"), Ok(Directive::Plain(Macro::BfLands))));
    match parse_directive("#circle_labels(30.5,120)") {
        Ok(Directive::WithArgs(ArgMacro::CircleLabels, radius, 120)) => assert_eq!(radius, "30.5"),
        _ => panic!("not recognised"),
    }
    assert!(matches!(parse_directive("#UNKNOWN"), Ok(Directive::Literal)));
    assert!(matches!(parse_directive("#CIRCLE_LABELS(30"), Ok(Directive::Literal)));
    assert!(matches!(parse_directive("number_of_tiles rnd(15,25)"), Ok(Directive::Literal)));
    assert_eq!(
        parse_directive("#CIRCLE_LABELS(30,x)").err(),
        Some(PreprocessError::MalformedMacroArguments)
    );
}

#[test]
fn outside_expansions_fill_in_order() {
    let lines = owned(&["a", "#BFLANDS", "#MKCONSTS", "#CIRCLE_POSITION_P1(30,0)", "b"]);
    let requests = outside_requests(&lines).unwrap();
    assert_eq!(requests.len(), 2);
    assert!(matches!(requests[0], Directive::Plain(Macro::BfLands)));
    let out = insert_macros(lines.clone(), vec![owned(&["x1", "x2"]), owned(&["y"])]).unwrap();
    assert_eq!(out[0], "a");
    assert_eq!(&out[1..3], &["x1", "x2"]);
    assert_eq!(out[3], "#const PHOFF 649");
    assert_eq!(out[out.len() - 2], "y");
    assert_eq!(out[out.len() - 1], "b");
    assert_eq!(
        insert_macros(lines, vec![owned(&["x1"])]),
        Err(PreprocessError::MissingExpansion)
    );
}
