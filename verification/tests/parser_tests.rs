use rasta::defs::{ConstDecl, ConstInitVal};
use rasta::error::ErrorKind;
use rasta::expr::{Array, BinaryOp, Exp, UnaryOp};
use rasta::parser::parse;
use rasta::program::{BlockItem, CompUnit, GlobalItem};
use rasta::stmt::Stmt;
use rasta::types::VTypeEnum;

fn parse_ok(src: &str) -> CompUnit {
    match parse(src.to_string(), "test.ca".to_string()) {
        Ok(u) => u,
        Err(e) => panic!("parse failed: {:?}", e),
    }
}

fn first_decl(u: &CompUnit) -> &ConstDecl {
    match &u.global_items[0] {
        GlobalItem::ConstDecl(d) => d,
        _ => panic!("expected a constant declaration"),
    }
}

fn const_exp(src: &str) -> Exp {
    let u = parse_ok(src);
    let d = match u.global_items.into_iter().next().unwrap() {
        GlobalItem::ConstDecl(d) => d,
        _ => panic!("expected a constant declaration"),
    };
    match d.init {
        ConstInitVal::Exp(ce) => ce.exp,
        _ => panic!("expected a constant-expression initializer"),
    }
}

fn lval_name(e: &Exp) -> &str {
    match e {
        Exp::LVal(l) => l.ids[0].as_str(),
        _ => panic!("expected an lvalue, got {:?}", e),
    }
}

#[test]
fn add_mul_precedence() {
    // `a+b*c` parses as `a+(b*c)`
    let e = const_exp("const X = a+b*c;");
    match &e {
        Exp::Binary(l, BinaryOp::Add, r, _) => {
            assert_eq!(lval_name(l), "a");
            match &**r {
                Exp::Binary(rl, BinaryOp::Mul, rr, _) => {
                    assert_eq!(lval_name(rl), "b");
                    assert_eq!(lval_name(rr), "c");
                }
                other => panic!("right operand should be a product, got {:?}", other),
            }
        }
        other => panic!("expected a sum, got {:?}", other),
    }
}

#[test]
fn sub_left_associative() {
    // `a-b-c` parses as `(a-b)-c`
    let e = const_exp("const X = a-b-c;");
    match &e {
        Exp::Binary(l, BinaryOp::Sub, r, _) => {
            assert_eq!(lval_name(r), "c");
            match &**l {
                Exp::Binary(ll, BinaryOp::Sub, lr, _) => {
                    assert_eq!(lval_name(ll), "a");
                    assert_eq!(lval_name(lr), "b");
                }
                other => panic!("left operand should be a difference, got {:?}", other),
            }
        }
        other => panic!("expected a difference, got {:?}", other),
    }
}

#[test]
fn unary_binds_to_operand_only() {
    // `-a+b` parses as `(-a)+b`
    let e = const_exp("const X = -a+b;");
    match &e {
        Exp::Binary(l, BinaryOp::Add, r, _) => {
            assert_eq!(lval_name(r), "b");
            match &**l {
                Exp::Unary(UnaryOp::Negative, inner, _) => {
                    assert_eq!(lval_name(inner), "a");
                }
                other => panic!("left operand should be a negation, got {:?}", other),
            }
        }
        other => panic!("expected a sum, got {:?}", other),
    }
}

#[test]
fn equality_binds_loosest() {
    // `a == b + c` parses as `a == (b+c)`
    let e = const_exp("const X = a == b + c;");
    match &e {
        Exp::Binary(_, BinaryOp::Eq, r, _) => match &**r {
            Exp::Binary(_, BinaryOp::Add, _, _) => {}
            other => panic!("right operand should be a sum, got {:?}", other),
        },
        other => panic!("expected an equality, got {:?}", other),
    }
}

#[test]
fn parentheses_override_precedence() {
    // `(a+b)*c` parses as a product whose left operand is the sum
    let e = const_exp("const X = (a+b)*c;");
    match &e {
        Exp::Binary(l, BinaryOp::Mul, r, _) => {
            assert_eq!(lval_name(r), "c");
            match &**l {
                Exp::Binary(_, BinaryOp::Add, _, _) => {}
                other => panic!("left operand should be a sum, got {:?}", other),
            }
        }
        other => panic!("expected a product, got {:?}", other),
    }
}

#[test]
fn array_literal_forms() {
    let src = "const F = fn () -> void { var a: u64 = []; var b: u64 = [x]; var c: u64 = [x,y]; var d: u64 = [x;3]; };";
    let u = parse_ok(src);
    let d = first_decl(&u);
    let f = match &d.init {
        ConstInitVal::Function(f) => f,
        _ => panic!("expected a function"),
    };
    let inits: Vec<&Exp> = f
        .block
        .items
        .iter()
        .filter_map(|item| match item {
            BlockItem::Decl(rasta::defs::Decl::Var(v)) => Some(&v.init.exp),
            _ => None,
        })
        .collect();
    assert_eq!(inits.len(), 4);
    match inits[0] {
        Exp::Array(a) => match &**a {
            Array::List(items, _) => assert_eq!(items.len(), 0),
            other => panic!("expected an empty list, got {:?}", other),
        },
        other => panic!("expected an array, got {:?}", other),
    }
    match inits[1] {
        Exp::Array(a) => match &**a {
            Array::List(items, _) => {
                assert_eq!(items.len(), 1);
                assert_eq!(lval_name(&items[0]), "x");
            }
            other => panic!("expected a singleton list, got {:?}", other),
        },
        other => panic!("expected an array, got {:?}", other),
    }
    match inits[2] {
        Exp::Array(a) => match &**a {
            Array::List(items, _) => {
                assert_eq!(items.len(), 2);
                assert_eq!(lval_name(&items[0]), "x");
                assert_eq!(lval_name(&items[1]), "y");
            }
            other => panic!("expected a two-element list, got {:?}", other),
        },
        other => panic!("expected an array, got {:?}", other),
    }
    match inits[3] {
        Exp::Array(a) => match &**a {
            Array::Template(value, count, _) => {
                assert_eq!(lval_name(value), "x");
                match &count.exp {
                    Exp::Number(n) => assert_eq!(n.num, 3),
                    other => panic!("expected a numeric count, got {:?}", other),
                }
            }
            other => panic!("expected a template, got {:?}", other),
        },
        other => panic!("expected an array, got {:?}", other),
    }
}

#[test]
fn type_keywords_map_to_base_kinds() {
    let src = "const F = fn (arg a: u64, arg b: i8) -> void { return 0; };";
    let u = parse_ok(src);
    let d = first_decl(&u);
    let f = match &d.init {
        ConstInitVal::Function(f) => f,
        _ => panic!("expected a function"),
    };
    assert_eq!(f.params.len(), 2);
    assert_eq!(f.params[0].id, "a");
    assert!(matches!(f.params[0].ty.ty, VTypeEnum::U64));
    assert_eq!(f.params[0].ty.star, 0);
    assert_eq!(f.params[1].id, "b");
    assert!(matches!(f.params[1].ty.ty, VTypeEnum::I8));
    assert!(matches!(f.func_type.ty, VTypeEnum::Void));
}

#[test]
fn pointer_markers_accumulate() {
    let src = "const F = fn (arg p: u64**) -> void { return 0; };";
    let u = parse_ok(src);
    let d = first_decl(&u);
    let f = match &d.init {
        ConstInitVal::Function(f) => f,
        _ => panic!("expected a function"),
    };
    assert_eq!(f.params[0].ty.star, 2);
}

#[test]
fn unknown_type_is_rejected() {
    let r = parse(
        "const F = fn (arg a: u32) -> u64 { return a; };".to_string(),
        "test.ca".to_string(),
    );
    match r {
        Err(e) => assert_eq!(e.kind, ErrorKind::UnknownType),
        Ok(_) => panic!("a type outside the built-in set must be rejected"),
    }
}

#[test]
fn bad_terminator_is_rejected() {
    let r = parse(
        "const F = fn () -> void { break return; };".to_string(),
        "test.ca".to_string(),
    );
    match r {
        Err(e) => assert_eq!(e.kind, ErrorKind::UnknownTerminator),
        Ok(_) => panic!("a terminator without its semicolon must be rejected"),
    }
}

#[test]
fn syntax_error_is_rejected() {
    let r = parse("const = ;".to_string(), "test.ca".to_string());
    match r {
        Err(e) => assert_eq!(e.kind, ErrorKind::SyntaxError),
        Ok(_) => panic!("malformed input must be rejected"),
    }
}

#[test]
fn numeric_literal_too_large_is_rejected() {
    let r = parse(
        "const X = 18446744073709551616;".to_string(),
        "test.ca".to_string(),
    );
    match r {
        Err(e) => assert_eq!(e.kind, ErrorKind::SyntaxError),
        Ok(_) => panic!("a numeral beyond 64 bits must be rejected"),
    }
}

#[test]
fn largest_numeral_is_accepted() {
    let e = const_exp("const X = 18446744073709551615;");
    match &e {
        Exp::Number(n) => assert_eq!(n.num, u64::MAX),
        other => panic!("expected a number, got {:?}", other),
    }
}

#[test]
fn top_attribute_is_recorded() {
    let u = parse_ok("#[top] const M = fn () -> void { return 0; };");
    let d = first_decl(&u);
    let attr = d.attr.as_ref().expect("the attribute list should be kept");
    assert_eq!(attr.attrs.len(), 1);
    assert_eq!(attr.attrs[0], "top");
    assert_eq!(d.id, "M");
}

#[test]
fn spans_carry_file_and_position() {
    let u = parse_ok("const X = 7;");
    let d = first_decl(&u);
    assert_eq!(d.span.file, "test.ca");
    assert_eq!(d.span.start, (1, 1));
    assert_eq!(d.span.end, (1, 13));
    assert_eq!(d.span.string, "const X = 7;");
}

#[test]
fn statement_forms_parse() {
    let src = "const M = fn (arg a: u64) -> u64 {\n\
               var x: u64 = 1;\n\
               x = a + 2;\n\
               *p = 1;\n\
               *(a + 1)[2] = 3;\n\
               if (a == 1) { x = 1; } else { x = 2; }\n\
               while (a != 0) { break; }\n\
               for i in 1..10 step 2 { continue; }\n\
               assembly(\"nop\", x: a, y: a+1);\n\
               f(1, \"s\", [1]);\n\
               { x = 3; }\n\
               return x;\n\
               };";
    let u = parse_ok(src);
    let d = first_decl(&u);
    let f = match &d.init {
        ConstInitVal::Function(f) => f,
        _ => panic!("expected a function"),
    };
    let kinds: Vec<&BlockItem> = f.block.items.iter().collect();
    assert_eq!(kinds.len(), 11);
    assert!(matches!(kinds[0], BlockItem::Decl(_)));
    assert!(matches!(kinds[1], BlockItem::Stmt(Stmt::Assign(_))));
    assert!(matches!(kinds[2], BlockItem::Stmt(Stmt::Assign(_))));
    assert!(matches!(kinds[3], BlockItem::Stmt(Stmt::Assign(_))));
    assert!(matches!(kinds[4], BlockItem::Stmt(Stmt::If(_))));
    assert!(matches!(kinds[5], BlockItem::Stmt(Stmt::While(_))));
    assert!(matches!(kinds[6], BlockItem::Stmt(Stmt::For(_))));
    assert!(matches!(kinds[7], BlockItem::Stmt(Stmt::InlineAsm(_))));
    assert!(matches!(kinds[8], BlockItem::Stmt(Stmt::Exp(Some(_)))));
    assert!(matches!(kinds[9], BlockItem::Stmt(Stmt::Block(_))));
    assert!(matches!(kinds[10], BlockItem::Stmt(Stmt::Return(_))));
}

#[test]
fn string_escapes_decode() {
    let src = "const M = fn () -> void { assembly(\"a\\n\\t\\\\b\\\"c\"); return 0; };";
    let u = parse_ok(src);
    let d = first_decl(&u);
    let f = match &d.init {
        ConstInitVal::Function(f) => f,
        _ => panic!("expected a function"),
    };
    match &f.block.items[0] {
        BlockItem::Stmt(Stmt::InlineAsm(a)) => {
            assert_eq!(a.code, "a\n\t\\b\"c");
            assert_eq!(a.constraints.len(), 0);
        }
        other => panic!("expected an assembly statement, got {:?}", other),
    }
}
