use techdebt_tracker::analyzer::{analyze_read, analyze_source};

#[test]
fn empty_function_has_complexity_one() {
    let fm = analyze_source("fn f() {}\n");
    assert_eq!(fm.functions, 1);
    assert_eq!(fm.cyclomatic_complexity, 1);
    assert_eq!(fm.longest_function_loc, 0);
    assert_eq!(fm.loc, 1);
}

#[test]
fn conditional_with_else_scores_two() {
    let text = "fn f(x: i32) -> i32 {\n    if x > 0 {\n        1\n    } else {\n        2\n    }\n}\n";
    let fm = analyze_source(text);
    assert_eq!(fm.functions, 1);
    assert_eq!(fm.cyclomatic_complexity, 2);
    assert_eq!(fm.longest_function_loc, 1);
}

#[test]
fn three_nested_loop_statements_score_four() {
    let text = "fn f() {\n    for a in 0..3 {\n        for b in 0..3 {\n            for c in 0..3 {\n                work(a, b, c);\n            }\n        }\n    }\n}\n";
    let fm = analyze_source(text);
    assert_eq!(fm.functions, 1);
    assert_eq!(fm.cyclomatic_complexity, 4);
}

#[test]
fn match_counts_once_whatever_its_arm_count() {
    let text = "fn f(x: u8) {\n    match x {\n        0 => a(),\n        1 => b(),\n        2 => c(),\n        3 => d(),\n        _ => e(),\n    }\n}\n";
    let fm = analyze_source(text);
    assert_eq!(fm.cyclomatic_complexity, 2);
}

#[test]
fn while_statement_counts() {
    let text = "fn f(mut x: u8) {\n    while x > 0 {\n        x -= 1;\n    }\n}\n";
    let fm = analyze_source(text);
    assert_eq!(fm.cyclomatic_complexity, 2);
}

#[test]
fn branch_in_sub_expression_position_does_not_count() {
    let text = "fn f(c: bool) {\n    let x = if c { 1 } else { 2 };\n    g(x);\n}\n";
    let fm = analyze_source(text);
    assert_eq!(fm.cyclomatic_complexity, 1);
}

#[test]
fn branch_statement_inside_branch_counts() {
    let text = "fn f(c: bool, d: bool) {\n    if c {\n        if d {\n            g();\n        }\n    }\n}\n";
    let fm = analyze_source(text);
    assert_eq!(fm.cyclomatic_complexity, 3);
}

#[test]
fn else_if_chain_counts_as_one_statement() {
    let text = "fn f(x: i32) {\n    if x > 0 {\n        a();\n    } else if x < 0 {\n        b();\n    } else {\n        c();\n    }\n}\n";
    let fm = analyze_source(text);
    // one qualifying statement: the else-if continues the same statement
    assert_eq!(fm.cyclomatic_complexity, 2);
}

#[test]
fn branch_statement_inside_match_arm_counts() {
    let text = "fn f(x: u8, c: bool) {\n    match x {\n        0 => {\n            if c {\n                g();\n            }\n        }\n        _ => h(),\n    }\n}\n";
    let fm = analyze_source(text);
    assert_eq!(fm.cyclomatic_complexity, 3);
}

#[test]
fn functions_and_longest_body_are_counted() {
    let text = "fn a() {\n    one();\n    two();\n    three();\n}\n\nfn b() {\n    one();\n}\n\nstruct S;\n";
    let fm = analyze_source(text);
    assert_eq!(fm.functions, 2);
    assert_eq!(fm.longest_function_loc, 3);
    assert_eq!(fm.cyclomatic_complexity, 2);
}

#[test]
fn nested_statements_do_not_lengthen_the_body() {
    let text = "fn f(c: bool) {\n    if c {\n        a();\n        b();\n        d();\n    }\n}\n";
    let fm = analyze_source(text);
    assert_eq!(fm.longest_function_loc, 1);
}

#[test]
fn unparsable_text_keeps_size_metrics_only() {
    let text = "// a comment\nfn broken( {\n";
    let fm = analyze_source(text);
    assert_eq!(fm.loc, 2);
    assert_eq!(fm.comments, 1);
    assert_eq!(fm.functions, 0);
    assert_eq!(fm.cyclomatic_complexity, 0);
    assert_eq!(fm.longest_function_loc, 0);
}

#[test]
fn comment_lines_are_counted_in_analysis() {
    let text = "// top\nfn f() {\n    // inner\n    g();\n}\n";
    let fm = analyze_source(text);
    assert_eq!(fm.comments, 2);
    assert_eq!(fm.loc, 5);
}

#[test]
fn reanalyzing_the_same_text_gives_identical_metrics() {
    let text = "fn f(x: i32) -> i32 {\n    if x > 0 {\n        x\n    } else {\n        0\n    }\n}\n";
    let first = analyze_source(text);
    let second = analyze_source(text);
    assert_eq!(first, second);
}

#[test]
fn bare_loop_statement_is_not_a_branch() {
    let text = "fn f() {\n    loop {\n        if done() {\n            break;\n        }\n    }\n}\n";
    let fm = analyze_source(text);
    // the loop statement itself does not qualify; the conditional inside does
    assert_eq!(fm.cyclomatic_complexity, 2);
}

#[test]
fn unreadable_file_yields_zero_metrics() {
    let fm = analyze_read(None);
    assert_eq!(fm.loc, 0);
    assert_eq!(fm.comments, 0);
    assert_eq!(fm.functions, 0);
    assert_eq!(fm.cyclomatic_complexity, 0);
    assert_eq!(fm.longest_function_loc, 0);
}

#[test]
fn readable_file_is_analyzed_through_the_read_edge() {
    let fm = analyze_read(Some("fn f() {}\n"));
    assert_eq!(fm, analyze_source("fn f() {}\n"));
    assert_eq!(fm.functions, 1);
}

#[test]
fn complexity_never_drops_below_function_count() {
    let text = "fn a() {}\nfn b() {}\nfn c(x: bool) {\n    if x {\n        g();\n    }\n}\n";
    let fm = analyze_source(text);
    assert_eq!(fm.functions, 3);
    assert_eq!(fm.cyclomatic_complexity, 4);
    assert!(fm.cyclomatic_complexity >= fm.functions);
}
