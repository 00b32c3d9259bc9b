use heidic::{
    BindingType, Expression, Item, Lexer, Literal, Parser, Statement, StringInterpolationPart,
    Type,
};

fn parse_source(src: &str) -> Result<heidic::Program, heidic::ParseError> {
    let mut lexer = Lexer::new(src);
    let tokens = lexer.tokenize().expect("tokenization should succeed");
    let mut parser = Parser::new(tokens);
    parser.parse()
}

#[test]
fn parses_a_function_with_typed_let_and_return() {
    let program = parse_source("fn f(): i32 { let x: i32 = 1; return x; }").unwrap();
    assert_eq!(program.items.len(), 1);
    match &program.items[0] {
        Item::Function(f) => {
            assert_eq!(f.name, "f");
            assert!(matches!(f.return_type, Type::I32));
            assert_eq!(f.body.len(), 2);
            match &f.body[0] {
                Statement::Let { name, ty, value, location } => {
                    assert_eq!(name, "x");
                    assert!(matches!(ty, Some(Type::I32)));
                    assert!(matches!(value, Expression::Literal(Literal::Int(1), _)));
                    assert_eq!((location.line, location.column), (1, 15));
                },
                _ => panic!("expected a let statement"),
            }
            assert!(matches!(&f.body[1], Statement::Return(Some(_), _)));
        },
        _ => panic!("expected a function item"),
    }
}

#[test]
fn parses_struct_component_and_resource() {
    let src = "struct P { x: f32, y: f32 }\ncomponent_soa V { xs: [f32] }\nresource Tex: Texture = \"a.dds\";";
    let program = parse_source(src).unwrap();
    assert_eq!(program.items.len(), 3);
    match &program.items[0] {
        Item::Struct(s) => {
            assert_eq!(s.name, "P");
            assert_eq!(s.fields.len(), 2);
            assert!(matches!(s.fields[0].ty, Type::F32));
        },
        _ => panic!("expected a struct"),
    }
    match &program.items[1] {
        Item::Component(c) => {
            assert_eq!(c.name, "V");
            assert!(c.is_soa);
            assert!(matches!(c.fields[0].ty, Type::Array(_)));
        },
        _ => panic!("expected a component"),
    }
    match &program.items[2] {
        Item::Resource(r) => {
            assert_eq!(r.name, "Tex");
            assert_eq!(r.resource_type, "Texture");
            assert_eq!(r.path, "a.dds");
        },
        _ => panic!("expected a resource"),
    }
}

#[test]
fn precedence_groups_multiplication_under_addition() {
    let program = parse_source("fn f(): i32 { return 1 + 2 * 3; }").unwrap();
    match &program.items[0] {
        Item::Function(f) => match &f.body[0] {
            Statement::Return(Some(Expression::BinaryOp { op, left, right, .. }), _) => {
                assert!(matches!(op, heidic::BinaryOp::Add));
                assert!(matches!(**left, Expression::Literal(Literal::Int(1), _)));
                assert!(matches!(**right, Expression::BinaryOp { op: heidic::BinaryOp::Mul, .. }));
            },
            _ => panic!("expected a return of a binary operation"),
        },
        _ => panic!("expected a function"),
    }
}

#[test]
fn vec3_call_desugars_to_struct_literal() {
    let program = parse_source("fn f(): void { let v = Vec3(1, 2, 3); }").unwrap();
    match &program.items[0] {
        Item::Function(f) => match &f.body[0] {
            Statement::Let { value, .. } => match value {
                Expression::StructLiteral { name, fields, .. } => {
                    assert_eq!(name, "Vec3");
                    assert_eq!(fields.len(), 3);
                    assert_eq!(fields[0].0, "x");
                    assert_eq!(fields[1].0, "y");
                    assert_eq!(fields[2].0, "z");
                    assert!(matches!(fields[2].1, Expression::Literal(Literal::Int(3), _)));
                },
                _ => panic!("expected a struct literal"),
            },
            _ => panic!("expected a let"),
        },
        _ => panic!("expected a function"),
    }
}

#[test]
fn vec3_arity_mismatch_is_a_syntax_error() {
    let err = parse_source("fn f(): void { let v = Vec3(1, 2); }").unwrap_err();
    assert_eq!(err.message, "Vec3 constructor expects 3 arguments");
}

#[test]
fn string_with_placeholders_becomes_interpolation() {
    let program = parse_source("fn f(n: i32): void { let s = \"count {n}!\"; }").unwrap();
    match &program.items[0] {
        Item::Function(f) => match &f.body[0] {
            Statement::Let { value, .. } => match value {
                Expression::StringInterpolation { parts, .. } => {
                    assert_eq!(parts.len(), 3);
                    assert!(matches!(&parts[0], StringInterpolationPart::Literal(t) if t == "count "));
                    assert!(matches!(&parts[1], StringInterpolationPart::Variable(v) if v == "n"));
                    assert!(matches!(&parts[2], StringInterpolationPart::Literal(t) if t == "!"));
                },
                _ => panic!("expected an interpolation"),
            },
            _ => panic!("expected a let"),
        },
        _ => panic!("expected a function"),
    }
}

#[test]
fn plain_string_stays_a_literal() {
    let program = parse_source("fn f(): void { let s = \"plain\"; }").unwrap();
    match &program.items[0] {
        Item::Function(f) => match &f.body[0] {
            Statement::Let { value, .. } => {
                assert!(matches!(value, Expression::Literal(Literal::String(_), _)));
            },
            _ => panic!("expected a let"),
        },
        _ => panic!("expected a function"),
    }
}

#[test]
fn unmatched_brace_in_interpolation_is_an_error() {
    let err = parse_source("fn f(): void { let s = \"oops {\"; }");
    // `{` without `}` is not rescanned (needs both braces), so it stays a
    // plain literal; a string with both but unclosed placeholder fails
    assert!(err.is_ok());
    let err = parse_source("fn f(): void { let s = \"}{ok}\"; }").unwrap_err();
    assert_eq!(err.message, "Unmatched closing brace in string interpolation");
}

#[test]
fn syntax_error_reports_one_diagnostic_and_stops() {
    let src = "fn f(): i32 { let = 1; }";
    let mut lexer = Lexer::new(src);
    let tokens = lexer.tokenize().unwrap();
    let mut parser = Parser::new(tokens);
    let err = parser.parse().unwrap_err();
    assert_eq!(err.message, "Expected identifier, got Eq");
    assert_eq!(parser.errors().len(), 1);
    assert_eq!(parser.errors()[0].message, "Expected identifier, got Eq");
}

#[test]
fn pipeline_with_layout_parses() {
    let src = "pipeline Main { shader vertex \"a.vert\" shader fragment \"a.frag\" layout { binding 0: uniform Camera, binding 1: sampler2D } }";
    let program = parse_source(src).unwrap();
    match &program.items[0] {
        Item::Pipeline(p) => {
            assert_eq!(p.name, "Main");
            assert_eq!(p.shaders.len(), 2);
            let layout = p.layout.as_ref().unwrap();
            assert_eq!(layout.bindings.len(), 2);
            assert_eq!(layout.bindings[0].binding, 0);
            assert!(matches!(&layout.bindings[0].binding_type, BindingType::Uniform(n) if n == "Camera"));
            assert!(matches!(&layout.bindings[1].binding_type, BindingType::Sampler2D));
        },
        _ => panic!("expected a pipeline"),
    }
}

#[test]
fn duplicate_binding_indices_are_rejected() {
    let src = "pipeline Main { layout { binding 0: uniform A, binding 0: uniform B } }";
    let err = parse_source(src).unwrap_err();
    assert_eq!(err.message, "Duplicate binding index 0 in pipeline 'Main' layout");
}

#[test]
fn hot_system_parses_with_flag() {
    let src = "@hot system Physics { fn step() { } }";
    let program = parse_source(src).unwrap();
    match &program.items[0] {
        Item::System(s) => {
            assert_eq!(s.name, "Physics");
            assert!(s.is_hot);
            assert_eq!(s.functions.len(), 1);
            assert_eq!(s.functions[0].name, "step");
        },
        _ => panic!("expected a system"),
    }
}

#[test]
fn match_expression_parses_arms() {
    let src = "fn f(x: i32): void { match x { 1 => { }, _ => { } }; }";
    let program = parse_source(src).unwrap();
    match &program.items[0] {
        Item::Function(f) => match &f.body[0] {
            Statement::Expression(Expression::Match { arms, .. }, _) => {
                assert_eq!(arms.len(), 2);
                assert!(matches!(arms[0].pattern, heidic::Pattern::Literal(Literal::Int(1), _)));
                assert!(matches!(arms[1].pattern, heidic::Pattern::Wildcard(_)));
            },
            _ => panic!("expected a match expression statement"),
        },
        _ => panic!("expected a function"),
    }
}

#[test]
fn extern_function_with_library_parses() {
    let src = "extern fn play(id: i32): i32 from \"audio\";";
    let program = parse_source(src).unwrap();
    match &program.items[0] {
        Item::ExternFunction(x) => {
            assert_eq!(x.name, "play");
            assert_eq!(x.params.len(), 1);
            assert!(matches!(x.return_type, Type::I32));
            assert_eq!(x.library.as_deref(), Some("audio"));
        },
        _ => panic!("expected an extern function"),
    }
}

#[test]
fn null_literal_records_one_diagnostic() {
    let src = "fn f(): void { let x = null; }";
    let mut lexer = Lexer::new(src);
    let tokens = lexer.tokenize().unwrap();
    let mut parser = Parser::new(tokens);
    let err = parser.parse().unwrap_err();
    assert_eq!(err.message, "Null literal not yet fully supported - use Optional types");
    assert_eq!(parser.errors().len(), 1);
    assert_eq!(parser.errors()[0].message, err.message);
}

#[test]
fn invalid_interpolation_character_records_one_diagnostic() {
    let src = "fn f(): void { let s = \"a {x+y} b\"; }";
    let mut lexer = Lexer::new(src);
    let tokens = lexer.tokenize().unwrap();
    let mut parser = Parser::new(tokens);
    let err = parser.parse().unwrap_err();
    assert_eq!(err.message, "Invalid character in string interpolation variable name: '+'");
    assert_eq!(parser.errors().len(), 1);
}

#[test]
fn malformed_bracketed_attribute_is_a_syntax_error() {
    // a bracketed attribute missing its closing bracket fails the parse with
    // exactly the one expectation diagnostic
    let src = "@[cuda component_soa P { xs: [f32] }";
    let mut lexer = Lexer::new(src);
    let tokens = lexer.tokenize().unwrap();
    let mut parser = Parser::new(tokens);
    let err = parser.parse().unwrap_err();
    assert_eq!(err.message, "Expected RBracket, got ComponentSOA");
    assert_eq!(parser.errors().len(), 1);
}

#[test]
fn unrecognized_at_sequence_backtracks() {
    // `@` before something that is not an attribute is put back and then
    // rejected at item level, mirroring the backtracking lookahead
    let src = "@ 5";
    let mut lexer = Lexer::new(src);
    let tokens = lexer.tokenize().unwrap();
    let mut parser = Parser::new(tokens);
    let err = parser.parse().unwrap_err();
    assert_eq!(err.message, "Unexpected token at item level: At");
    assert_eq!(parser.errors().len(), 1);
}

#[test]
fn cuda_attribute_sets_component_flag() {
    let src = "@[cuda] component_soa P { xs: [f32] }";
    let program = parse_source(src).unwrap();
    match &program.items[0] {
        Item::Component(c) => {
            assert!(c.is_cuda);
            assert!(c.is_soa);
            assert!(!c.is_hot);
        },
        _ => panic!("expected a component"),
    }
}

#[test]
fn launch_attribute_sets_kernel_name() {
    let src = "@[launch(kernel = step)] fn run() { }";
    let program = parse_source(src).unwrap();
    match &program.items[0] {
        Item::Function(f) => {
            assert_eq!(f.cuda_kernel.as_deref(), Some("step"));
        },
        _ => panic!("expected a function"),
    }
}
