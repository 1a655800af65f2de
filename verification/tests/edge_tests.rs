use rasta::expr::{Deref, Exp};
use rasta::defs::ConstInitVal;
use rasta::gen::{generate_verilog, GenCtx, GenerateVerilog};
use rasta::parser::parse;
use rasta::program::{BlockItem, CompUnit, GlobalItem};
use rasta::stmt::{Assign, Stmt};

fn parse_ok(src: &str) -> CompUnit {
    match parse(src.to_string(), "test.ca".to_string()) {
        Ok(u) => u,
        Err(e) => panic!("parse failed: {:?}", e),
    }
}

#[test]
fn empty_source_is_an_empty_unit() {
    let u = parse_ok("");
    assert_eq!(u.global_items.len(), 0);
    let text = generate_verilog(&u).expect("an empty unit generates");
    assert_eq!(text, "");
    let mut ctx = GenCtx::new();
    u.generate(&mut ctx).expect("an empty unit generates");
    assert!(ctx.top_module.is_none());
}

#[test]
fn top_mark_counts_in_any_position() {
    // a declaration carries the mark wherever `top` sits in its list
    let u = parse_ok("#[fast, top] const M = fn () -> u64 { return 1; };");
    let mut ctx = GenCtx::new();
    u.generate(&mut ctx).expect("generation succeeds");
    assert_eq!(ctx.top_module.unwrap().0, "M");

    let u2 = parse_ok("#[top, fast] const M = fn () -> u64 { return 1; };");
    let mut ctx2 = GenCtx::new();
    u2.generate(&mut ctx2).expect("generation succeeds");
    assert_eq!(ctx2.top_module.unwrap().0, "M");

    let u3 = parse_ok("#[fast] const M = fn () -> u64 { return 1; };");
    let mut ctx3 = GenCtx::new();
    u3.generate(&mut ctx3).expect("generation succeeds");
    assert!(ctx3.top_module.is_none());
}

fn body_stmts(u: &CompUnit) -> &Vec<BlockItem> {
    match &u.global_items[0] {
        GlobalItem::ConstDecl(d) => match &d.init {
            ConstInitVal::Function(f) => &f.block.items,
            _ => panic!("expected a function"),
        },
        _ => panic!("expected a constant declaration"),
    }
}

#[test]
fn deref_shapes_are_distinguished() {
    let src = "const M = fn () -> void {\n\
               *p = 0;\n\
               *(x + 1) = 0;\n\
               *p[2] = 0;\n\
               *(x + 1)[2] = 0;\n\
               return 0;\n\
               };";
    let u = parse_ok(src);
    let items = body_stmts(&u);
    let shapes: Vec<&Deref> = items
        .iter()
        .filter_map(|item| match item {
            BlockItem::Stmt(Stmt::Assign(Assign::WritePtr(d, _, _))) => Some(d),
            _ => None,
        })
        .collect();
    assert_eq!(shapes.len(), 4);
    assert!(matches!(shapes[0], Deref::DerefId(..)));
    assert!(matches!(shapes[1], Deref::DerefExp(..)));
    assert!(matches!(shapes[2], Deref::DerefPtr(..)));
    assert!(matches!(shapes[3], Deref::DerefPtrExp(..)));
}

#[test]
fn deref_reads_parse_inside_expressions() {
    let src = "const M = fn () -> void { x = *p + *(q)[1]; return 0; };";
    let u = parse_ok(src);
    let items = body_stmts(&u);
    match &items[0] {
        BlockItem::Stmt(Stmt::Assign(Assign::WriteVar(_, e, _))) => match e {
            Exp::Binary(l, _, r, _) => {
                assert!(matches!(&**l, Exp::Deref(_)));
                assert!(matches!(&**r, Exp::Deref(_)));
            }
            other => panic!("expected a sum of dereferences, got {:?}", other),
        },
        other => panic!("expected an assignment, got {:?}", other),
    }
}

#[test]
fn modules_concatenate_in_source_order() {
    let src = "const A = fn () -> u64 { return 1; };\n\
               const B = fn () -> i8 { return 2; };";
    let u = parse_ok(src);
    let text = generate_verilog(&u).expect("both modules lower");
    assert_eq!(
        text,
        "module A(output [63:0] out);\nassign out = 1;\nendmodule\n\
         module B(output [7:0] out);\nassign out = 2;\nendmodule\n"
    );
}
