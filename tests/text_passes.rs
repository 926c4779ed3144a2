use preprocessor::comments::{strip_comments, strip_line_comments};
use preprocessor::whitespace::{condense_line_whitespace, condense_whitespace};

/// Tests a generic example of condensing a string with whitespace.
#[test]
fn test_condense_whitespace() {
    assert_eq!(condense_line_whitespace("   "), "");
}

/// Tests that condensing a string consisting of only whitespace is empty.
#[test]
fn test_condense_only_whitespace() {
    assert_eq!(condense_line_whitespace("   "), "");
}

/// Tests that stripping comments from the empty string is still empty.
#[test]
fn strip_comments_empty() {
    for d in 0..1000 {
        let (s, d_out) = strip_line_comments("", d);
        assert_eq!("", s);
        assert_eq!(d, d_out);
    }
}

/// Tests stripping text that does not contain any comment delimeters.
#[test]
fn strip_no_comments() {
    let (s, d) = strip_line_comments("Hello, World!", 0);
    assert_eq!("Hello, World!", s);
    assert_eq!(0, d);
}

/// Tests stripping a string without comment characters inside a comment.
#[test]
fn strip_during_comment() {
    let (s, d) = strip_line_comments("Hello, World!", 1);
    assert_eq!("", s);
    assert_eq!(1, d);
}

/// Tests stripping a line that starts but does not finish a comment.
#[test]
fn strip_comment_start() {
    let (s, d) = strip_line_comments("a /* b", 0);
    assert_eq!("a ", s);
    assert_eq!(1, d);
}

/// Tests that the nesting depth grows on an open delimiter inside a comment.
#[test]
fn strip_comment_nested_start() {
    let (s, d) = strip_line_comments("a /* b", 1);
    assert_eq!("", s);
    assert_eq!(2, d);
}

/// Tests stripping a line that starts and ends with the comment delimiters.
#[test]
fn strip_entire_line() {
    let (s, d) = strip_line_comments("/* this is a comment */", 0);
    assert_eq!("", s);
    assert_eq!(0, d);
}

#[test]
fn strip_balanced_pairs_keep_surrounding_text() {
    let (s, d) = strip_line_comments("ab /* c */ de /* f */g", 0);
    assert_eq!("ab  de g", s);
    assert_eq!(0, d);
}

#[test]
fn strip_nested_comment_closes_twice() {
    let (s, d) = strip_line_comments("x /* a /* b */ c */ y", 0);
    assert_eq!("x  y", s);
    assert_eq!(0, d);
}

#[test]
fn strip_unbalanced_close_is_kept() {
    let (s, d) = strip_line_comments("a */ b", 0);
    assert_eq!("a */ b", s);
    assert_eq!(0, d);
}

#[test]
fn strip_close_inside_comment_lowers_depth() {
    let (s, d) = strip_line_comments("a */ b", 2);
    assert_eq!("", s);
    assert_eq!(1, d);
    let (s, d) = strip_line_comments("a */ b", 1);
    assert_eq!(" b", s);
    assert_eq!(0, d);
}

#[test]
fn strip_comments_carries_depth_across_lines() {
    let lines = vec![
        String::from("keep /* start"),
        String::from("inside"),
        String::from("end */ after"),
    ];
    assert_eq!(strip_comments(lines), vec!["keep ", "", " after"]);
}

#[test]
fn condense_collapses_inner_runs() {
    assert_eq!(condense_line_whitespace("  a \t  b\n c  "), "a b c");
}

#[test]
fn condense_is_idempotent_on_example() {
    let once = condense_line_whitespace("  land_position   5    5 ");
    assert_eq!(once, "land_position 5 5");
    assert_eq!(condense_line_whitespace(&once), once);
}

#[test]
fn condense_whitespace_drops_blank_lines() {
    let lines = vec![
        String::from("  a  b "),
        String::from("   "),
        String::from(""),
        String::from("c"),
    ];
    assert_eq!(condense_whitespace(lines), vec!["a b", "c"]);
}
