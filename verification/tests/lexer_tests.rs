use heidic::{Lexer, Token};

fn tokens_of(src: &str) -> Vec<heidic::TokenWithLocation> {
    let mut lexer = Lexer::new(src);
    lexer.tokenize().expect("tokenization should succeed")
}

#[test]
fn keyword_roundtrip_at_origin() {
    let toks = tokens_of("fn");
    assert_eq!(toks.len(), 1);
    assert!(matches!(toks[0].token, Token::Fn));
    assert_eq!(toks[0].location.line, 1);
    assert_eq!(toks[0].location.column, 1);
}

#[test]
fn long_keyword_roundtrip() {
    let toks = tokens_of("tessellation_evaluation");
    assert_eq!(toks.len(), 1);
    assert!(matches!(toks[0].token, Token::TessellationEvaluation));
    assert_eq!((toks[0].location.line, toks[0].location.column), (1, 1));
}

#[test]
fn identifier_roundtrip() {
    let toks = tokens_of("velocity_x");
    assert_eq!(toks.len(), 1);
    match &toks[0].token {
        Token::Ident(n) => assert_eq!(n, "velocity_x"),
        other => panic!("expected identifier, got {:?}", std::mem::discriminant(other)),
    }
    assert_eq!((toks[0].location.line, toks[0].location.column), (1, 1));
}

#[test]
fn operator_roundtrips() {
    assert!(matches!(tokens_of("==")[0].token, Token::EqEq));
    assert!(matches!(tokens_of("!=")[0].token, Token::Ne));
    assert!(matches!(tokens_of("<=")[0].token, Token::Le));
    assert!(matches!(tokens_of("&&")[0].token, Token::AndAnd));
    assert!(matches!(tokens_of("||")[0].token, Token::OrOr));
    assert!(matches!(tokens_of("+")[0].token, Token::Plus));
    assert!(matches!(tokens_of(";")[0].token, Token::Semicolon));
    assert!(matches!(tokens_of("?")[0].token, Token::Question));
    assert_eq!(tokens_of("==").len(), 1);
}

#[test]
fn attribute_tokens() {
    let toks = tokens_of("@hot");
    assert_eq!(toks.len(), 1);
    assert!(matches!(toks[0].token, Token::Hot));
    let toks = tokens_of("@");
    assert_eq!(toks.len(), 1);
    assert!(matches!(toks[0].token, Token::At));
}

#[test]
fn integer_literal_roundtrips() {
    let toks = tokens_of("123");
    assert_eq!(toks.len(), 1);
    assert!(matches!(toks[0].token, Token::Int(123)));
    assert_eq!((toks[0].location.line, toks[0].location.column), (1, 1));

    let toks = tokens_of("-5");
    assert_eq!(toks.len(), 1);
    assert!(matches!(toks[0].token, Token::Int(-5)));

    let toks = tokens_of("0x1A");
    assert_eq!(toks.len(), 1);
    assert!(matches!(toks[0].token, Token::Int(26)));

    let toks = tokens_of("9223372036854775807");
    assert!(matches!(toks[0].token, Token::Int(i64::MAX)));

    let toks = tokens_of("-9223372036854775808");
    assert!(matches!(toks[0].token, Token::Int(i64::MIN)));
}

#[test]
fn float_literal_keeps_spelling() {
    let toks = tokens_of("1.50");
    assert_eq!(toks.len(), 1);
    match &toks[0].token {
        Token::Float(s) => assert_eq!(s, "1.50"),
        _ => panic!("expected float literal"),
    }
    let toks = tokens_of("-2.5");
    match &toks[0].token {
        Token::Float(s) => assert_eq!(s, "-2.5"),
        _ => panic!("expected float literal"),
    }
}

#[test]
fn string_literal_roundtrip() {
    let toks = tokens_of("\"hello world\"");
    assert_eq!(toks.len(), 1);
    match &toks[0].token {
        Token::StringLit(s) => assert_eq!(s, "hello world"),
        _ => panic!("expected string literal"),
    }
    assert_eq!((toks[0].location.line, toks[0].location.column), (1, 1));
}

#[test]
fn whitespace_and_comments_are_skipped() {
    let toks = tokens_of("// header\nfn  main");
    assert_eq!(toks.len(), 2);
    assert!(matches!(toks[0].token, Token::Fn));
    assert_eq!((toks[0].location.line, toks[0].location.column), (2, 1));
    match &toks[1].token {
        Token::Ident(n) => assert_eq!(n, "main"),
        _ => panic!("expected identifier"),
    }
    assert_eq!((toks[1].location.line, toks[1].location.column), (2, 5));
}

#[test]
fn minus_binds_to_number_by_longest_match() {
    // `a-1` lexes as the identifier, then the negative literal: the number
    // rule's longer match beats the single-character minus.
    let toks = tokens_of("a-1");
    assert_eq!(toks.len(), 2);
    assert!(matches!(toks[0].token, Token::Ident(_)));
    assert!(matches!(toks[1].token, Token::Int(-1)));
}

#[test]
fn unknown_byte_is_a_lexical_error() {
    let mut lexer = Lexer::new("let $");
    let err = lexer.tokenize().expect_err("expected a lexical error");
    assert_eq!(err.line, 1);
    assert_eq!(err.column, 5);
    assert_eq!(err.message(), "Lexical error at 1:5");
}

#[test]
fn lone_ampersand_is_a_lexical_error() {
    let mut lexer = Lexer::new("a & b");
    let err = lexer.tokenize().expect_err("expected a lexical error");
    assert_eq!((err.line, err.column), (1, 3));
}

#[test]
fn unterminated_string_is_a_lexical_error() {
    let mut lexer = Lexer::new("\"oops");
    let err = lexer.tokenize().expect_err("expected a lexical error");
    assert_eq!((err.line, err.column), (1, 1));
}

#[test]
fn integer_overflow_is_a_lexical_error() {
    let mut lexer = Lexer::new("9223372036854775808");
    assert!(lexer.tokenize().is_err());
}

#[test]
fn hex_with_no_digits_falls_back_to_decimal() {
    // `0xg`: the hex rule needs at least one hex digit, so the zero lexes
    // alone and `xg` is an identifier.
    let toks = tokens_of("0xg");
    assert_eq!(toks.len(), 2);
    assert!(matches!(toks[0].token, Token::Int(0)));
    assert!(matches!(&toks[1].token, Token::Ident(n) if n == "xg"));
}
