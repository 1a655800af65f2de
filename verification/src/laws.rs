//! The load-bearing guarantees of the generator, stated and proved once,
//! over the same specification functions its contracts use: which
//! declarations are guaranteed to lower, what the width mapping is, how
//! the top-module registry behaves, and that an unsupported body can
//! never slip through.

use vstd::prelude::*;

use crate::defs::{ConstDecl, ConstInitVal, FuncDef, Param};
use crate::error::ErrorKind;
use crate::expr::{BinaryOp, Exp, UnaryOp};
use crate::gen::{
    block_err, const_decl_step, decl_err, exp_err, func_err, is_top, item_step, module_chars,
    params_err_from, top_after, unit_step_from, vtype_err, width_of, GenStep,
};
use crate::lexer::{Token, TokenKind};
use crate::parser::{atom_exp, machine_fn_tree};
use crate::program::{BlockItem, GlobalItem};
use crate::stmt::Stmt;
use crate::span::Span;
use crate::types::{VType, VTypeEnum};

verus! {

/// A type that lowers to a data port: one of the two value-carrying base
/// kinds, at pointer depth zero.
pub open spec fn data_width_type(t: &VType) -> bool {
    t.star == 0 && (t.ty == VTypeEnum::I8 || t.ty == VTypeEnum::U64)
}

/// A type the width computation accepts: any built-in base kind at
/// pointer depth zero.
pub open spec fn port_type(t: &VType) -> bool {
    t.star == 0 && !(t.ty matches VTypeEnum::Others(_))
}

/// An arithmetic operator of the surface expression grammar.
pub open spec fn arith_op(op: BinaryOp) -> bool {
    op == BinaryOp::Add || op == BinaryOp::Sub || op == BinaryOp::Mul || op == BinaryOp::Div || op
        == BinaryOp::Mod || op == BinaryOp::Eq || op == BinaryOp::Neq
}

/// An expression built from numbers, lvalues, unary plus and minus, and
/// the arithmetic and equality operators alone.
pub open spec fn arithmetic_exp(e: &Exp) -> bool
    decreases e,
{
    match e {
        Exp::Number(_) => true,
        Exp::LVal(_) => true,
        Exp::Exp(inner, _) => arithmetic_exp(inner),
        Exp::Unary(op, inner, _) => (op == UnaryOp::Positive || op == UnaryOp::Negative)
            && arithmetic_exp(inner),
        Exp::Binary(lhs, op, rhs, _) => arith_op(*op) && arithmetic_exp(lhs) && arithmetic_exp(rhs),
        _ => false,
    }
}

/// A function-valued constant declaration of the guaranteed-lowerable
/// shape: every parameter of a value-carrying width, a built-in return
/// type, and a body that is exactly one `return` of an arithmetic
/// expression.
pub open spec fn simple_function_decl(d: &ConstDecl) -> bool {
    match d.init {
        ConstInitVal::Function(f) => {
            &&& forall|i: int|
                0 <= i < f.params@.len() ==> data_width_type(&(#[trigger] f.params@[i]).ty)
            &&& port_type(&f.func_type)
            &&& f.block.items@.len() == 1
            &&& match f.block.items@[0] {
                BlockItem::Stmt(Stmt::Return(r)) => arithmetic_exp(&r.exp),
                _ => false,
            }
        },
        _ => false,
    }
}

/// Every arithmetic expression lowers.
pub proof fn lemma_arithmetic_exp_lowers(e: &Exp)
    requires
        arithmetic_exp(e),
    ensures
        exp_err(e) is None,
    decreases e,
{
    match e {
        Exp::Exp(inner, _) => lemma_arithmetic_exp_lowers(inner),
        Exp::Unary(_, inner, _) => lemma_arithmetic_exp_lowers(inner),
        Exp::Binary(lhs, _, rhs, _) => {
            lemma_arithmetic_exp_lowers(lhs);
            lemma_arithmetic_exp_lowers(rhs);
        },
        _ => {},
    }
}

/// A parameter list whose types all carry a width passes the parameter
/// check.
pub proof fn lemma_data_params_lower(ps: Seq<Param>, i: int)
    requires
        0 <= i <= ps.len(),
        forall|j: int| 0 <= j < ps.len() ==> data_width_type(&(#[trigger] ps[j]).ty),
    ensures
        params_err_from(ps, i) is None,
    decreases ps.len() - i,
{
    if i < ps.len() {
        lemma_data_params_lower(ps, i + 1);
    }
}

/// Lowering a declaration of the guaranteed shape succeeds, as long as it
/// does not mark a second top module: the result is exactly one module,
/// named after the constant, with one input port per parameter in
/// declaration order at its declared width, one trailing `out` port of
/// the return type's width, and a body of one continuous assignment —
/// that is the text `module_chars` describes.
pub proof fn lemma_simple_function_generates(d: &ConstDecl, top: Option<(String, Span)>)
    requires
        simple_function_decl(d),
        !(is_top(d) && top is Some),
    ensures
        const_decl_step(d, top) == GenStep::Done(module_chars(d), top_after(d, top)),
{
    let f = d.init->Function_0;
    lemma_data_params_lower(f.params@, 0);
    match f.block.items@[0] {
        BlockItem::Stmt(Stmt::Return(r)) => lemma_arithmetic_exp_lowers(&r.exp),
        _ => {},
    }
    assert(func_err(&f) is None);
}

/// The width mapping is exact and total over the three built-in base
/// kinds, and any non-zero pointer depth reaching it is rejected.
pub proof fn lemma_width_mapping(t: &VType)
    ensures
        width_of(VTypeEnum::I8) == 8,
        width_of(VTypeEnum::U64) == 64,
        width_of(VTypeEnum::Void) == 0,
        port_type(t) ==> vtype_err(t) is None,
        t.star != 0 ==> vtype_err(t) == Some(
            (ErrorKind::PointerWidthUnsupported, Some(t.span)),
        ),
{
}

/// A `top` mark on a declaration that lowers sets the registry to that
/// constant's name and the mark's location.
pub proof fn lemma_top_registers(d: &ConstDecl)
    requires
        is_top(d),
        decl_err(d) is None,
    ensures
        const_decl_step(d, None) == GenStep::Done(
            module_chars(d),
            Some((d.id, d.attr->0.span)),
        ),
{
}

/// A second `top` mark in the same run is rejected, and the failure names
/// both locations: the second mark, and the mark already registered.
pub proof fn lemma_second_top_rejected(d: &ConstDecl, top: Option<(String, Span)>)
    requires
        is_top(d),
        decl_err(d) is None,
        top is Some,
    ensures
        const_decl_step(d, top) == GenStep::Failed(
            ErrorKind::DuplicateTopModule,
            Some(d.attr->0.span),
            Some((top->0).1),
        ),
{
}

/// Once the registry holds a top module, a run that still contains a
/// `top`-marked declaration can only fail.
pub proof fn lemma_top_set_then_top_fails(
    items: Seq<GlobalItem>,
    j: int,
    top: Option<(String, Span)>,
    i: int,
)
    requires
        top is Some,
        0 <= j <= i < items.len(),
        items[i] matches GlobalItem::ConstDecl(d) && is_top(&d),
    ensures
        unit_step_from(items, j, top) is Failed,
    decreases i - j,
{
    if j == i {
    } else {
        match item_step(&items[j], top) {
            GenStep::Failed(..) => {},
            GenStep::Done(_, top1) => {
                lemma_top_set_then_top_fails(items, j + 1, top1, i);
            },
        }
    }
}

/// A run whose items mark two top modules fails, whatever else they hold:
/// either an earlier item already fails, or the first mark registers and
/// the second is rejected.
pub proof fn lemma_two_tops_fail(
    items: Seq<GlobalItem>,
    k: int,
    top: Option<(String, Span)>,
    i: int,
    j: int,
)
    requires
        0 <= k <= i < j < items.len(),
        items[i] matches GlobalItem::ConstDecl(d) && is_top(&d),
        items[j] matches GlobalItem::ConstDecl(d) && is_top(&d),
    ensures
        unit_step_from(items, k, top) is Failed,
    decreases i - k,
{
    if k == i {
        match item_step(&items[k], top) {
            GenStep::Failed(..) => {},
            GenStep::Done(_, top1) => {
                lemma_top_set_then_top_fails(items, k + 1, top1, j);
            },
        }
    } else {
        match item_step(&items[k], top) {
            GenStep::Failed(..) => {},
            GenStep::Done(_, top1) => {
                lemma_two_tops_fail(items, k + 1, top1, i, j);
            },
        }
    }
}

/// A function body that is anything but a single `return` statement.
pub open spec fn non_return_body(f: &FuncDef) -> bool {
    !(f.block.items@.len() == 1 && (f.block.items@[0] matches BlockItem::Stmt(Stmt::Return(_))))
}

/// A function-valued declaration whose body is not exactly one `return`
/// statement never lowers, whatever the registry holds.
pub proof fn lemma_non_return_body_fails(d: &ConstDecl, top: Option<(String, Span)>)
    requires
        d.init matches ConstInitVal::Function(f) && non_return_body(&f),
    ensures
        const_decl_step(d, top) is Failed,
{
    let f = d.init->Function_0;
    if params_err_from(f.params@, 0) is None && vtype_err(&f.func_type) is None {
        assert(block_err(&f.block) is Some);
    }
}

/// A declaration whose initializer holds the machine tree — the tree the
/// parser's contracts fix for the attributed two-port source shape — is of
/// the guaranteed-lowerable form, so `lemma_simple_function_generates`
/// applies to it: one module named after the constant, its two 64-bit
/// input ports in declaration order, a 64-bit `out` port, and a single
/// assignment lowered from the body's one `return`.
pub proof fn lemma_machine_tree_lowers(toks: &Vec<Token>, pos: int, d: &ConstDecl)
    requires
        d.init matches ConstInitVal::Function(f) && machine_fn_tree(toks, pos, &f),
    ensures
        simple_function_decl(d),
{
    let f = d.init->Function_0;
    assert forall|i: int|
        0 <= i < f.params@.len() implies data_width_type(&(#[trigger] f.params@[i]).ty) by {
        assert(i == 0 || i == 1);
    }
    match f.block.items@[0] {
        BlockItem::Stmt(st) => match st {
            Stmt::Return(r) => match r.exp {
                Exp::Binary(lhs, _, rhs, _) => {
                    lemma_atom_exp_arithmetic(&toks@[pos + 16].kind, &lhs);
                    lemma_atom_exp_arithmetic(&toks@[pos + 18].kind, &rhs);
                },
                _ => {},
            },
            _ => {},
        },
        _ => {},
    }
}

/// An expression atom — a numeric literal or a lone lvalue — is an
/// arithmetic expression.
proof fn lemma_atom_exp_arithmetic(k: &TokenKind, e: &Exp)
    requires
        atom_exp(k, e),
    ensures
        arithmetic_exp(e),
{
}

/// A run containing a function-valued declaration whose body is not
/// exactly one `return` statement fails as a whole; since a failed run
/// returns no text at all, no partial or silently wrong output can be
/// emitted for it.
pub proof fn lemma_bad_body_run_fails(
    items: Seq<GlobalItem>,
    j: int,
    top: Option<(String, Span)>,
    i: int,
)
    requires
        0 <= j <= i < items.len(),
        items[i] matches GlobalItem::ConstDecl(d) && d.init matches ConstInitVal::Function(f)
            && non_return_body(&f),
    ensures
        unit_step_from(items, j, top) is Failed,
    decreases i - j,
{
    if j == i {
        match items[i] {
            GlobalItem::ConstDecl(d) => {
                lemma_non_return_body_fails(&d, top);
            },
            _ => {},
        }
    } else {
        match item_step(&items[j], top) {
            GenStep::Failed(..) => {},
            GenStep::Done(_, top1) => {
                lemma_bad_body_run_fails(items, j + 1, top1, i);
            },
        }
    }
}

} // verus!
