use rasta::error::ErrorKind;
use rasta::expr::{BinaryOp, Exp, LVal, Number, UnaryOp};
use rasta::gen::{generate_verilog, GenCtx, GenerateVerilog};
use rasta::parser::parse;
use rasta::program::CompUnit;
use rasta::span::Span;
use rasta::types::{VType, VTypeEnum};

fn parse_ok(src: &str) -> CompUnit {
    match parse(src.to_string(), "test.ca".to_string()) {
        Ok(u) => u,
        Err(e) => panic!("parse failed: {:?}", e),
    }
}

fn blank_span() -> Span {
    Span::new((1, 1), (1, 1), String::new(), String::new())
}

#[test]
fn machine_scenario_generates_module_and_top() {
    let src = "#[top] const Machine = fn (arg a: u64, arg b: u64) -> u64 { return a+b; };";
    let u = parse_ok(src);
    let mut ctx = GenCtx::new();
    u.generate(&mut ctx).expect("generation should succeed");
    assert_eq!(
        ctx.code,
        "module Machine(input [63:0] a, input [63:0] b, output [63:0] out);\nassign out = a + b;\nendmodule\n"
    );
    let top = ctx.top_module.expect("the top-module registry should be set");
    assert_eq!(top.0, "Machine");

    let text = generate_verilog(&u).expect("generation should succeed");
    assert_eq!(text, ctx.code);
}

#[test]
fn widths_are_exact() {
    for (src_ty, range) in [("u64", "[63:0]"), ("i8", "[7:0]"), ("void", "[-1:0]")] {
        let t = VType { ty: base_of(src_ty), star: 0, span: blank_span() };
        let mut ctx = GenCtx::new();
        t.generate(&mut ctx).expect("a built-in base kind has a width");
        assert_eq!(ctx.code, range);
    }
}

fn base_of(name: &str) -> VTypeEnum {
    match name {
        "u64" => VTypeEnum::U64,
        "i8" => VTypeEnum::I8,
        "void" => VTypeEnum::Void,
        other => VTypeEnum::Others(other.to_string()),
    }
}

#[test]
fn pointer_width_is_rejected() {
    let t = VType { ty: VTypeEnum::U64, star: 1, span: blank_span() };
    let mut ctx = GenCtx::new();
    match t.generate(&mut ctx) {
        Err(e) => assert_eq!(e.kind, ErrorKind::PointerWidthUnsupported),
        Ok(_) => panic!("a pointer type must not reach the width mapping"),
    }
}

#[test]
fn named_type_width_is_rejected() {
    let t = VType { ty: VTypeEnum::Others("word".to_string()), star: 0, span: blank_span() };
    let mut ctx = GenCtx::new();
    match t.generate(&mut ctx) {
        Err(e) => assert_eq!(e.kind, ErrorKind::UnsupportedNode),
        Ok(_) => panic!("a named type has no width"),
    }
}

#[test]
fn pointer_parameter_fails_generation() {
    let u = parse_ok("const M = fn (arg p: u64*) -> u64 { return 1; };");
    match generate_verilog(&u) {
        Err(e) => assert_eq!(e.kind, ErrorKind::PointerWidthUnsupported),
        Ok(_) => panic!("a pointer-typed port must fail"),
    }
}

#[test]
fn duplicate_top_is_rejected_with_both_locations() {
    let src = "#[top] const A = fn () -> u64 { return 1; };\n\
               #[top] const B = fn () -> u64 { return 2; };";
    let u = parse_ok(src);
    match generate_verilog(&u) {
        Err(e) => {
            assert_eq!(e.kind, ErrorKind::DuplicateTopModule);
            let second = e.span.expect("the second mark should be named");
            let first = e.related.expect("the first mark should be named");
            assert_eq!(second.start.0, 2);
            assert_eq!(first.start.0, 1);
        }
        Ok(_) => panic!("a second top module must be rejected"),
    }
}

#[test]
fn single_top_does_not_fail() {
    let src = "#[top] const A = fn () -> u64 { return 1; };\n\
               const B = fn () -> u64 { return 2; };";
    let u = parse_ok(src);
    let mut ctx = GenCtx::new();
    u.generate(&mut ctx).expect("one top module is fine");
    assert_eq!(ctx.top_module.unwrap().0, "A");
    assert!(ctx.code.contains("module A("));
    assert!(ctx.code.contains("module B("));
}

#[test]
fn body_with_if_fails_generation() {
    let src = "const M = fn (arg a: u64) -> u64 { if (a) { return 1; } return a; };";
    let u = parse_ok(src);
    match generate_verilog(&u) {
        Err(e) => assert_eq!(e.kind, ErrorKind::UnsupportedNode),
        Ok(_) => panic!("a body with a conditional must fail generation"),
    }
}

#[test]
fn body_with_two_returns_fails_generation() {
    let src = "const M = fn () -> u64 { return 1; return 2; };";
    let u = parse_ok(src);
    match generate_verilog(&u) {
        Err(e) => assert_eq!(e.kind, ErrorKind::UnsupportedNode),
        Ok(_) => panic!("a body is exactly one return statement"),
    }
}

#[test]
fn empty_body_fails_generation() {
    let u = parse_ok("const M = fn () -> u64 { };");
    match generate_verilog(&u) {
        Err(e) => assert_eq!(e.kind, ErrorKind::UnsupportedNode),
        Ok(_) => panic!("an empty body must fail generation"),
    }
}

#[test]
fn constant_expression_initializer_fails_generation() {
    let u = parse_ok("const K = 42;");
    match generate_verilog(&u) {
        Err(e) => assert_eq!(e.kind, ErrorKind::UnsupportedNode),
        Ok(_) => panic!("only function-valued constants are lowered"),
    }
}

#[test]
fn failing_run_emits_nothing() {
    // the first module alone would lower; the failing second one aborts the
    // whole run with no text at all
    let src = "const A = fn () -> u64 { return 1; };\n\
               const B = 2;";
    let u = parse_ok(src);
    assert!(generate_verilog(&u).is_err());
}

#[test]
fn expression_spellings() {
    let src = "#[top] const M = fn (arg a: u64, arg b: u64) -> u64 { return -a + +b * (a % b) / 2 - (a == b) + (a != 3); };";
    let u = parse_ok(src);
    let text = generate_verilog(&u).expect("arithmetic expressions lower");
    // a unary plus is a no-op and disappears; parentheses are not reproduced
    assert_eq!(
        text,
        "module M(input [63:0] a, input [63:0] b, output [63:0] out);\n\
         assign out = -a + b * a % b / 2 - a == b + a != 3;\nendmodule\n"
    );
}

#[test]
fn reserved_operators_lower_when_constructed_directly() {
    // bitwise complement and comparisons exist in the data model even though
    // the surface parser never builds them
    let lv = |name: &str| {
        Box::new(Exp::LVal(Box::new(LVal {
            ids: vec![name.to_string()],
            span: blank_span(),
            exp: None,
        })))
    };
    let e = Exp::Binary(
        Box::new(Exp::Unary(UnaryOp::Not, lv("a"), blank_span())),
        BinaryOp::Ge,
        Box::new(Exp::Number(Number { num: 7, span: blank_span() })),
        blank_span(),
    );
    let mut ctx = GenCtx::new();
    e.generate(&mut ctx).expect("comparisons lower");
    assert_eq!(ctx.code, "~a >= 7");
}

#[test]
fn number_renders_in_decimal() {
    let u = parse_ok("#[top] const M = fn () -> u64 { return 18446744073709551615; };");
    let text = generate_verilog(&u).expect("a numeric body lowers");
    assert!(text.contains("assign out = 18446744073709551615;"));
}

#[test]
fn failure_never_disturbs_the_registry_or_rewrites_output() {
    // a failing item may append partial text but never truncates what was
    // already emitted and never touches the top-module registry
    let u_ok = parse_ok("#[top] const A = fn () -> u64 { return 1; };");
    let mut ctx = GenCtx::new();
    u_ok.generate(&mut ctx).expect("the first unit lowers");
    let emitted = ctx.code.clone();
    let top_before = ctx.top_module.as_ref().map(|t| t.0.clone());

    let u_bad = parse_ok("#[top] const B = fn (arg p: u64*) -> u64 { return 1; };");
    let r = u_bad.generate(&mut ctx);
    assert!(r.is_err());
    assert!(ctx.code.starts_with(&emitted));
    let top_after = ctx.top_module.as_ref().map(|t| t.0.clone());
    assert_eq!(top_after, top_before);
}

#[test]
fn duplicate_top_counts_marks_in_any_position() {
    // both declarations carry `top`, one of them not in first position
    let src = "#[fast, top] const A = fn () -> u64 { return 1; };\n\
               #[top] const B = fn () -> u64 { return 2; };";
    let u = parse_ok(src);
    match generate_verilog(&u) {
        Err(e) => assert_eq!(e.kind, ErrorKind::DuplicateTopModule),
        Ok(_) => panic!("two top marks must be rejected wherever they sit in their lists"),
    }
}
