use preprocessor::error::PreprocessError;
use preprocessor::random::{
    extract_random_line, extract_rnd, next_label, prob_conditional, prob_definitions, probs,
};

fn owned(lines: &[&str]) -> Vec<String> {
    lines.iter().map(|s| s.to_string()).collect()
}

#[test]
fn probs_divides_evenly_with_remainder_first() {
    assert_eq!(probs(100, 3), vec![34, 33, 33]);
    assert_eq!(probs(10, 4), vec![3, 3, 2, 2]);
    assert_eq!(probs(100, 1), vec![100]);
}

#[test]
fn probs_share_out_hundred_for_every_size() {
    for m in 1..=100u32 {
        let w = probs(100, m);
        assert_eq!(w.len(), m as usize);
        assert_eq!(w.iter().sum::<u32>(), 100);
        let max = *w.iter().max().unwrap();
        let min = *w.iter().min().unwrap();
        assert!(max - min <= 1);
    }
}

#[test]
fn first_label_and_successors() {
    assert_eq!(next_label(&None), "_A");
    assert_eq!(next_label(&Some("_A")), "_B");
    assert_eq!(next_label(&Some("_Y")), "_Z");
    assert_eq!(next_label(&Some("_Z")), "_ZA");
    assert_eq!(next_label(&Some("_ZZ")), "_ZZA");
}

#[test]
fn labels_do_not_repeat() {
    let mut seen = vec![next_label(&None)];
    for _ in 0..60 {
        let next = next_label(&Some(seen.last().unwrap().as_str()));
        assert!(!seen.contains(&next));
        seen.push(next);
    }
    assert_eq!(seen[25], "_Z");
    assert_eq!(seen[26], "_ZA");
}

#[test]
fn prob_definitions_exact_block() {
    assert_eq!(
        prob_definitions("_A", 1, 3),
        "start_random\npercent_chance 34 #define _A_0\npercent_chance 33 #define _A_1\npercent_chance 33 #define _A_2\nend_random"
    );
}

#[test]
fn prob_conditional_exact_chain() {
    assert_eq!(
        prob_conditional("_A", "number_of_objects", 4, 6),
        "if _A_0\nnumber_of_objects 4\nelseif _A_1\nnumber_of_objects 5\nelseif _A_2\nnumber_of_objects 6\nendif"
    );
}

#[test]
fn extract_random_line_reads_parts() {
    assert_eq!(
        extract_random_line("number_of_objects rnd(2,5)"),
        Some((String::from("number_of_objects"), 2, 5))
    );
    assert_eq!(extract_random_line("number_of_objects rnd(2)"), None);
    assert_eq!(extract_random_line("number_of_objects rnd(a,5)"), None);
}

#[test]
fn extract_rnd_without_flag_is_identity() {
    let lines = owned(&["ELEVATION_GENERATION", "number_of_objects rnd(1,2)"]);
    assert_eq!(extract_rnd(lines.clone()), Ok(lines));
}

#[test]
fn extract_rnd_lifts_ranges_after_land_generation() {
    let out = extract_rnd(owned(&[
        "#EXTRACT_RND",
        "base_size rnd(1,2)",
        "<ELEVATION_GENERATION>",
        "create_object GOLD {",
        "number_of_objects rnd(1,2)",
        "group_placement_radius rnd(3,4)",
        "}",
    ]))
    .unwrap();
    assert_eq!(
        out,
        vec![
            "start_random\npercent_chance 50 #define _A_0\npercent_chance 50 #define _A_1\nend_random",
            "start_random\npercent_chance 50 #define _B_0\npercent_chance 50 #define _B_1\nend_random",
            "base_size rnd(1,2)",
            "<ELEVATION_GENERATION>",
            "create_object GOLD {",
            "if _A_0\nnumber_of_objects 1\nelseif _A_1\nnumber_of_objects 2\nendif",
            "if _B_0\ngroup_placement_radius 3\nelseif _B_1\ngroup_placement_radius 4\nendif",
            "}",
        ]
    );
}

#[test]
fn extract_rnd_errors() {
    assert_eq!(
        extract_rnd(owned(&["#EXTRACT_RND", "ELEVATION_GENERATION", "x rnd(3,3)"])),
        Err(PreprocessError::EmptyRandomRange)
    );
    assert_eq!(
        extract_rnd(owned(&["#extract_rnd", "ELEVATION_GENERATION", "x rnd(3"])),
        Err(PreprocessError::MalformedRandomRange)
    );
    assert_eq!(
        extract_rnd(owned(&["#EXTRACT_RND", "ELEVATION_GENERATION", "x rnd(1,2) rnd(3,4)"])),
        Err(PreprocessError::SeveralRandomRanges)
    );
}
