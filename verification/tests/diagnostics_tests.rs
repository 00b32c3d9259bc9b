use heidic::{ErrorReporter, SourceLocation};
use heidic::{find_closest_match, levenshtein_distance};

#[test]
fn levenshtein_known_values() {
    assert_eq!(levenshtein_distance("kitten", "sitting"), 3);
    assert_eq!(levenshtein_distance("", "abc"), 3);
    assert_eq!(levenshtein_distance("abc", ""), 3);
    assert_eq!(levenshtein_distance("same", "same"), 0);
    assert_eq!(levenshtein_distance("flaw", "lawn"), 2);
}

#[test]
fn closest_match_picks_smallest_distance_within_threshold() {
    let candidates = vec![
        String::from("velocity"),
        String::from("position"),
        String::from("velocities"),
    ];
    let r = find_closest_match("velocitty", &candidates, 3);
    assert_eq!(r.as_deref(), Some("velocity"));
    let none = find_closest_match("totally_other", &candidates, 2);
    assert!(none.is_none());
}

#[test]
fn closest_match_keeps_the_earlier_candidate_on_ties() {
    let candidates = vec![String::from("aab"), String::from("abb")];
    // both are at distance 1 from "ab": the first wins
    let r = find_closest_match("ab", &candidates, 3);
    assert_eq!(r.as_deref(), Some("aab"));
}

#[test]
fn report_error_renders_context_and_caret() {
    let source = "let a = 1;\nlet bad = oops;\nlet c = 3;\n";
    let reporter = ErrorReporter::new("demo.hd", source);
    let block = reporter.report_error(SourceLocation::new(2, 11), "Undefined variable: 'oops'", None);
    let expected = "\u{274c} Error at demo.hd:2:11:\n  1 | let a = 1;\n  2 | let bad = oops;\n              ^^^^\n  3 | let c = 3;\n\nUndefined variable: 'oops'\n\n";
    assert_eq!(block, expected);
}

#[test]
fn report_error_at_unknown_location_is_short() {
    let reporter = ErrorReporter::new("demo.hd", "x\n");
    let sugg = String::from("do the other thing");
    let block = reporter.report_error(SourceLocation::unknown(), "broken", Some(&sugg));
    assert_eq!(block, "\u{274c} Error: broken\n\u{1f4a1} Suggestion: do the other thing\n\n");
}

#[test]
fn secondary_location_gets_its_own_block() {
    let source = "let a = 1;\nlet b = 2;\n";
    let reporter = ErrorReporter::new("demo.hd", source);
    let label = String::from("Note: first element (expected type)");
    let block = reporter.report_error_with_secondary(
        SourceLocation::new(2, 5),
        "mismatch",
        None,
        Some(SourceLocation::new(1, 5)),
        Some(&label),
    );
    assert!(block.contains("\u{1f4cc} Note: first element (expected type) at demo.hd:1:5:"));
    assert!(block.contains("  1 | let a = 1;"));
    assert!(block.ends_with("\nmismatch\n\n"));
}

#[test]
fn checker_renders_through_stored_reporter() {
    let source = "fn f(): i32 { let x: i32 = \"hi\"; return x; }";
    let mut lexer = heidic::Lexer::new(source);
    let tokens = lexer.tokenize().unwrap();
    let mut parser = heidic::Parser::new(tokens);
    let ast = parser.parse().unwrap();
    let mut checker = heidic::TypeChecker::new();
    checker.set_error_reporter(ErrorReporter::new("demo.hd", source));
    let r = checker.check(&ast);
    assert!(r.is_err());
    let blocks = checker.rendered_errors();
    assert_eq!(blocks.len(), 1);
    assert!(blocks[0].contains("Type mismatch: cannot assign 'string' to 'i32'"));
    assert!(blocks[0].contains("demo.hd:1:15:"));
}
