use heidic::{Lexer, Parser, Type, TypeChecker};

fn check_source(src: &str) -> (Result<(), heidic::CheckError>, TypeChecker) {
    let mut lexer = Lexer::new(src);
    let tokens = lexer.tokenize().expect("tokenization should succeed");
    let mut parser = Parser::new(tokens);
    let ast = parser.parse().expect("parsing should succeed");
    let mut checker = TypeChecker::new();
    let r = checker.check(&ast);
    (r, checker)
}

#[test]
fn error_type_absorbs_everything() {
    let checker = TypeChecker::new();
    let samples = vec![
        Type::I32,
        Type::F64,
        Type::Bool,
        Type::String,
        Type::Void,
        Type::Struct(String::from("P")),
        Type::Array(Box::new(Type::I32)),
        Type::Optional(Box::new(Type::F32)),
        Type::Query(vec![Type::Struct(String::from("C"))]),
        Type::Error,
    ];
    for t in &samples {
        assert!(checker.types_compatible(&Type::Error, t));
        assert!(checker.types_compatible(t, &Type::Error));
    }
}

#[test]
fn numeric_widening_is_asymmetric() {
    let checker = TypeChecker::new();
    assert!(checker.types_compatible(&Type::F64, &Type::I32));
    assert!(!checker.types_compatible(&Type::I32, &Type::F64));
    // the other widenings, and the one narrowing
    assert!(checker.types_compatible(&Type::I64, &Type::I32));
    assert!(checker.types_compatible(&Type::F64, &Type::F32));
    assert!(checker.types_compatible(&Type::F64, &Type::I64));
    assert!(checker.types_compatible(&Type::F32, &Type::I32));
    assert!(checker.types_compatible(&Type::F32, &Type::F64));
    assert!(!checker.types_compatible(&Type::I32, &Type::I64));
}

#[test]
fn optional_accepts_bare_inner_type() {
    let checker = TypeChecker::new();
    let opt_i32 = Type::Optional(Box::new(Type::I32));
    assert!(checker.types_compatible(&opt_i32, &Type::I32));
    assert!(!checker.types_compatible(&Type::I32, &opt_i32));
}

#[test]
fn two_undefined_variables_give_exactly_two_diagnostics() {
    let src = "fn a(): void { missing_one; }\nfn b(): void { missing_two; }\n";
    let (r, checker) = check_source(src);
    let err = r.expect_err("checking should fail");
    assert_eq!(err.count, 2);
    assert_eq!(checker.errors().len(), 2);
    assert_eq!(checker.errors()[0].message, "Undefined variable: 'missing_one'");
    assert_eq!(checker.errors()[1].message, "Undefined variable: 'missing_two'");
    assert_eq!(err.message(), "Compilation failed with 2 error(s). See errors above.");
}

#[test]
fn undefined_variable_suggests_closest_name() {
    let src = "fn a(velocity: i32): void { velocitty; }\n";
    let (r, checker) = check_source(src);
    assert!(r.is_err());
    assert_eq!(checker.errors().len(), 1);
    assert_eq!(checker.errors()[0].message, "Undefined variable: 'velocitty'");
    assert_eq!(
        checker.errors()[0].suggestion.as_deref(),
        Some("Did you mean 'velocity'? Use: velocity")
    );
}

#[test]
fn let_mismatch_reports_once_and_checking_continues() {
    let src = "fn f(): i32 { let x: i32 = \"hi\"; return x; }";
    let (r, checker) = check_source(src);
    let err = r.expect_err("checking should fail");
    // exactly one diagnostic: the poisoned `x` does not re-report at `return`
    assert_eq!(err.count, 1);
    assert_eq!(
        checker.errors()[0].message,
        "Type mismatch: cannot assign 'string' to 'i32'"
    );
    let sugg = checker.errors()[0].suggestion.as_deref().unwrap();
    assert!(sugg.contains("x = 0"), "suggestion was: {}", sugg);
    assert_eq!(sugg, "Use a i32 variable or convert: x = 0");
}

#[test]
fn resource_registers_accessor_for_later_use() {
    let src = "resource Tex: Texture = \"a.dds\";\nfn f(): i32 { return get_resource_tex(); }\n";
    let (r, checker) = check_source(src);
    assert!(r.is_ok(), "errors: {:?}", checker.errors().iter().map(|d| d.message.clone()).collect::<Vec<_>>());
}

#[test]
fn resource_accessor_works_when_declared_after_use() {
    let src = "fn f(): i32 { return get_resource_tex(); }\nresource Tex: Texture = \"a.dds\";\n";
    let (r, _) = check_source(src);
    assert!(r.is_ok());
}

#[test]
fn audio_resource_registers_play_and_stop_helpers() {
    let src = "resource Boom: Sound = \"boom.wav\";\nfn f(): i32 { stop_resource_boom(); return play_resource_boom(); }\n";
    let (r, _) = check_source(src);
    assert!(r.is_ok());
}

#[test]
fn for_loop_requires_query_collection() {
    let src = "fn f(q: i32): void { for e in q { } }";
    let (r, checker) = check_source(src);
    let err = r.expect_err("checking should fail");
    assert_eq!(err.count, 1);
    assert_eq!(
        checker.errors()[0].message,
        "For loop collection must be a query type, got 'i32'"
    );
    assert_eq!(
        checker.errors()[0].suggestion.as_deref(),
        Some("Use a query: for entity in query<Position, Velocity>")
    );
}

#[test]
fn for_loop_accepts_query_collection() {
    let src = "fn f(q: query<Position>): void { for e in q { } }";
    let (r, _) = check_source(src);
    assert!(r.is_ok());
}

#[test]
fn frame_allocation_cannot_be_returned() {
    let src = "fn f(frame: FrameArena): f32 { let v = frame.alloc_array; return v; }";
    let (r, checker) = check_source(src);
    let err = r.expect_err("checking should fail");
    assert_eq!(err.count, 1);
    assert_eq!(
        checker.errors()[0].message,
        "Cannot return frame-scoped allocation 'v': frame-scoped memory is only valid within the current frame"
    );
}

#[test]
fn returning_an_untagged_local_is_fine() {
    let src = "fn f(frame: FrameArena): i32 { let v = frame.alloc_array; let w = 3; return w; }";
    let (r, checker) = check_source(src);
    assert!(r.is_ok(), "errors: {:?}", checker.errors().iter().map(|d| d.message.clone()).collect::<Vec<_>>());
}

#[test]
fn soa_component_rejects_non_array_field() {
    let src = "component_soa Position { xs: [f32], y: f32 }";
    let (r, checker) = check_source(src);
    let err = r.expect_err("checking should fail");
    assert_eq!(err.count, 1);
    assert_eq!(
        checker.errors()[0].message,
        "SOA component 'Position' field 'y' must be an array type (use [Type] instead of Type)"
    );
    assert_eq!(
        checker.errors()[0].suggestion.as_deref(),
        Some("Change 'y: f32' to 'y: [f32]'")
    );
}

#[test]
fn soa_component_with_all_array_fields_passes() {
    let src = "component_soa Position { xs: [f32], ys: [f32] }";
    let (r, _) = check_source(src);
    assert!(r.is_ok());
}

#[test]
fn shader_stage_must_match_extension() {
    let src = "shader vertex \"a.frag\"";
    let (r, checker) = check_source(src);
    assert!(r.is_err());
    assert_eq!(
        checker.errors()[0].message,
        "Shader stage 'vertex' does not match file extension. Expected '.vert' extension for vertex shader, but got 'a.frag'"
    );
    let ok = check_source("shader vertex \"a.vert\"").0;
    assert!(ok.is_ok());
    let generic = check_source("shader vertex \"a.glsl\"").0;
    assert!(generic.is_ok());
    let spv = check_source("shader vertex \"a.SPV\"").0;
    assert!(spv.is_ok());
}

#[test]
fn arithmetic_requires_numeric_operands() {
    let src = "fn f(a: bool, b: i32): void { let c = a + b; }";
    let (r, checker) = check_source(src);
    assert!(r.is_err());
    assert_eq!(
        checker.errors()[0].message,
        "Arithmetic operations require numeric types, got 'bool' and 'i32'"
    );
}

#[test]
fn call_arity_is_checked() {
    let src = "fn g(a: i32): void { }\nfn f(): void { g(1, 2); }";
    let (r, checker) = check_source(src);
    assert!(r.is_err());
    assert_eq!(
        checker.errors()[0].message,
        "Argument count mismatch for function 'g': expected 1 arguments, got 2"
    );
}

#[test]
fn unwrap_requires_an_optional() {
    let src = "fn f(x: ?i32, y: i32): void { let a = x.unwrap; let b = y.unwrap; }";
    // `.unwrap` parses as member access; only the member named unwrap on a
    // non-optional is rejected
    let (r, checker) = check_source(src);
    assert!(r.is_err());
    assert_eq!(
        checker.errors()[0].message,
        "Cannot call unwrap() on non-optional type 'i32'"
    );
}

#[test]
fn array_literal_elements_must_agree_with_first() {
    let src = "fn f(): void { let a = [1, true, 2]; }";
    let (r, checker) = check_source(src);
    assert!(r.is_err());
    assert_eq!(
        checker.errors()[0].message,
        "Array literal element 2 has type 'bool', but first element has type 'i32'"
    );
    // the diagnostic points back at the first element
    assert!(checker.errors()[0].secondary_location.is_some());
    assert_eq!(
        checker.errors()[0].secondary_label.as_deref(),
        Some("Note: first element (expected type)")
    );
}

#[test]
fn interpolation_checks_its_variables() {
    let src = "fn f(count: i32): void { let s = \"have {count} and {missing}\"; }";
    let (r, checker) = check_source(src);
    assert!(r.is_err());
    assert_eq!(
        checker.errors()[0].message,
        "Undefined variable 'missing' in string interpolation"
    );
}
