use techdebt_tracker::analyzer::analyze_source;
use techdebt_tracker::metrics::{aggregate, FileMetrics, ProjectMetrics};

fn metrics(
    loc: usize,
    comments: usize,
    functions: usize,
    cyclomatic_complexity: usize,
    longest_function_loc: usize,
) -> FileMetrics {
    FileMetrics { loc, comments, functions, cyclomatic_complexity, longest_function_loc }
}

#[test]
fn empty_project_is_all_zero() {
    let pm = aggregate(&Vec::new());
    assert_eq!(pm.loc, 0);
    assert_eq!(pm.comments, 0);
    assert_eq!(pm.functions, 0);
    assert_eq!(pm.cyclomatic_complexity, 0);
    assert_eq!(pm.longest_function_loc, 0);
    assert_eq!(pm.max_file_complexity, 0);
    assert_eq!(pm.file_with_max_complexity, "");
    let kloc = pm.loc as f64 / 1000.0;
    assert_eq!(kloc, 0.0);
}

#[test]
fn additive_fields_sum_over_files() {
    let entries = vec![
        (String::from("a.rs"), metrics(10, 2, 1, 3, 4)),
        (String::from("b.rs"), metrics(20, 5, 2, 2, 7)),
        (String::from("c.rs"), metrics(5, 0, 0, 0, 0)),
    ];
    let pm = aggregate(&entries);
    assert_eq!(pm.loc, 35);
    assert_eq!(pm.comments, 7);
    assert_eq!(pm.functions, 3);
    assert_eq!(pm.cyclomatic_complexity, 5);
    assert_eq!(pm.longest_function_loc, 7);
}

#[test]
fn most_complex_file_is_tracked() {
    let entries = vec![
        (String::from("low.rs"), metrics(1, 0, 1, 2, 1)),
        (String::from("high.rs"), metrics(1, 0, 1, 9, 1)),
        (String::from("mid.rs"), metrics(1, 0, 1, 5, 1)),
    ];
    let pm = aggregate(&entries);
    assert_eq!(pm.max_file_complexity, 9);
    assert_eq!(pm.file_with_max_complexity, "high.rs");
}

#[test]
fn ties_keep_the_earliest_file() {
    let entries = vec![
        (String::from("first.rs"), metrics(1, 0, 1, 3, 1)),
        (String::from("second.rs"), metrics(1, 0, 1, 3, 1)),
    ];
    let pm = aggregate(&entries);
    assert_eq!(pm.max_file_complexity, 3);
    assert_eq!(pm.file_with_max_complexity, "first.rs");
}

#[test]
fn all_zero_files_record_no_path() {
    let entries = vec![
        (String::from("a.rs"), metrics(3, 1, 0, 0, 0)),
        (String::from("b.rs"), metrics(4, 0, 0, 0, 0)),
    ];
    let pm = aggregate(&entries);
    assert_eq!(pm.max_file_complexity, 0);
    assert_eq!(pm.file_with_max_complexity, "");
}

#[test]
fn unreadable_file_contributes_nothing() {
    let readable_one = (String::from("one.rs"), metrics(10, 1, 1, 2, 3));
    let readable_two = (String::from("two.rs"), metrics(20, 4, 2, 5, 6));
    let unreadable = (String::from("broken.rs"), FileMetrics::zero());
    let with_unreadable = aggregate(&vec![
        readable_one.clone(),
        unreadable,
        readable_two.clone(),
    ]);
    let without = aggregate(&vec![readable_one, readable_two]);
    assert_eq!(with_unreadable.loc, without.loc);
    assert_eq!(with_unreadable.comments, without.comments);
    assert_eq!(with_unreadable.functions, without.functions);
    assert_eq!(with_unreadable.cyclomatic_complexity, without.cyclomatic_complexity);
    assert_eq!(with_unreadable.longest_function_loc, without.longest_function_loc);
    assert_eq!(with_unreadable.max_file_complexity, without.max_file_complexity);
    assert_eq!(with_unreadable.file_with_max_complexity, without.file_with_max_complexity);
}

#[test]
fn absorb_matches_aggregate() {
    let mut pm = ProjectMetrics::new();
    pm.absorb("a.rs", &metrics(10, 2, 1, 3, 4));
    pm.absorb("b.rs", &metrics(20, 5, 2, 6, 7));
    assert_eq!(pm.loc, 30);
    assert_eq!(pm.cyclomatic_complexity, 9);
    assert_eq!(pm.max_file_complexity, 6);
    assert_eq!(pm.file_with_max_complexity, "b.rs");
}

#[test]
fn sums_saturate_instead_of_wrapping() {
    let mut pm = ProjectMetrics::new();
    pm.absorb("a.rs", &metrics(usize::MAX, 0, 0, 0, 0));
    pm.absorb("b.rs", &metrics(10, 0, 0, 0, 0));
    assert_eq!(pm.loc, usize::MAX);
}

#[test]
fn warnings_fire_past_the_thresholds() {
    let mut pm = ProjectMetrics::new();
    pm.absorb("a.rs", &metrics(100, 9, 1, 11, 51));
    let (complexity_high, function_long, density_low) = pm.threshold_warnings();
    assert!(complexity_high);
    assert!(function_long);
    assert!(density_low);
}

#[test]
fn warnings_stay_off_at_the_thresholds() {
    let mut pm = ProjectMetrics::new();
    pm.absorb("a.rs", &metrics(100, 10, 1, 10, 50));
    let (complexity_high, function_long, density_low) = pm.threshold_warnings();
    assert!(!complexity_high);
    assert!(!function_long);
    assert!(!density_low);
}

#[test]
fn density_warning_stays_off_with_no_lines() {
    let pm = ProjectMetrics::new();
    let (_, _, density_low) = pm.threshold_warnings();
    assert!(!density_low);
}

#[test]
fn analyzed_sources_aggregate_end_to_end() {
    let plain = analyze_source("fn a() {}\n");
    let branchy = analyze_source(
        "fn b(x: i32) {\n    if x > 0 {\n        g();\n    }\n    while x < 9 {\n        h();\n    }\n}\n",
    );
    let entries = vec![
        (String::from("plain.rs"), plain),
        (String::from("branchy.rs"), branchy),
    ];
    let pm = aggregate(&entries);
    assert_eq!(pm.functions, 2);
    assert_eq!(pm.cyclomatic_complexity, 1 + 3);
    assert_eq!(pm.max_file_complexity, 3);
    assert_eq!(pm.file_with_max_complexity, "branchy.rs");
    assert_eq!(pm.loc, 1 + 8);
}
