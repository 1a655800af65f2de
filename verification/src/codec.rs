//! The syntax-tree interchange codec: a lossless binary encoding of a
//! compilation unit, every field and every span included. `serialize`
//! produces exactly the encoding that the specification `enc_unit`
//! describes; `deserialize` accepts a byte string only if it is exactly
//! the encoding of the tree it returns, so a successful round trip can
//! never change what the bytes say.
//!
//! The wire shape is simple and fixed: numbers as eight little-endian
//! bytes, characters as four, strings and lists with a leading count, and
//! one leading tag byte per enum variant.

use vstd::bytes::{
    lemma_auto_spec_u32_to_from_le_bytes, lemma_auto_spec_u64_to_from_le_bytes,
    spec_u32_from_le_bytes, spec_u32_to_le_bytes, spec_u64_from_le_bytes, spec_u64_to_le_bytes,
    u32_from_le_bytes, u32_to_le_bytes, u64_from_le_bytes, u64_to_le_bytes,
};
use vstd::slice::slice_subrange;
use vstd::prelude::*;

use crate::defs::{
    Attributes, ClassDef, ClassMember, ConstDecl, ConstInitVal, Decl, FuncDef, InitVal, Param,
    ProtoDef, VarDecl,
};
use crate::expr::{Array, BinaryOp, ConstExp, Deref, Exp, GetAddr, LVal, Number, UnaryOp};
use crate::program::{Block, BlockItem, CompUnit, GlobalItem};
use crate::span::Span;
use crate::stmt::{
    AsmConstraint, Assign, BuiltinFunction, BuiltinFunctionCall, For, FuncCall, If, InlineAsm,
    Return, Stmt, Terminator, While,
};
use crate::text::push_char;
use crate::types::{VType, VTypeEnum};

verus! {

// ---------------------------------------------------------------------------
// The encoding, as a specification
// ---------------------------------------------------------------------------
/// Eight little-endian bytes.
pub open spec fn enc_u64(x: u64) -> Seq<u8> {
    spec_u64_to_le_bytes(x)
}

/// A machine word, encoded as 64 bits.
pub open spec fn enc_usize(x: usize) -> Seq<u8> {
    enc_u64(x as u64)
}

/// A character, as its scalar value in four little-endian bytes.
pub open spec fn enc_char(c: char) -> Seq<u8> {
    spec_u32_to_le_bytes(c as u32)
}

/// The characters of a string, in order.
pub open spec fn enc_chars(s: Seq<char>) -> Seq<u8>
    decreases s.len(),
{
    if s.len() == 0 {
        seq![]
    } else {
        enc_chars(s.drop_last()) + enc_char(s.last())
    }
}

/// A string: its length, then its characters.
pub open spec fn enc_string(s: &String) -> Seq<u8> {
    enc_u64(s@.len() as u64) + enc_chars(s@)
}

/// The elements of the list, in order.
pub open spec fn enc_strings_body(v: Seq<String>) -> Seq<u8>
    decreases v.len(),
{
    if v.len() == 0 {
        seq![]
    } else {
        enc_strings_body(v.drop_last()) + enc_string(&v.last())
    }
}

/// A list of strings: its length, then each string.
pub open spec fn enc_strings(v: Seq<String>) -> Seq<u8> {
    enc_u64(v.len() as u64) + enc_strings_body(v)
}

/// A span: both positions, the recorded line, the file name.
pub open spec fn enc_span(s: &Span) -> Seq<u8> {
    enc_usize(s.start.0) + enc_usize(s.start.1) + enc_usize(s.end.0) + enc_usize(s.end.1)
        + enc_string(&s.string) + enc_string(&s.file)
}

/// A base type kind: a tag, plus the name for the named kind.
pub open spec fn enc_base(t: &VTypeEnum) -> Seq<u8> {
    match t {
        VTypeEnum::U64 => seq![0u8],
        VTypeEnum::I8 => seq![1u8],
        VTypeEnum::Void => seq![2u8],
        VTypeEnum::Others(name) => seq![3u8] + enc_string(name),
    }
}

/// A type: base kind, pointer depth, span.
pub open spec fn enc_vtype(t: &VType) -> Seq<u8> {
    enc_base(&t.ty) + enc_usize(t.star) + enc_span(&t.span)
}

/// A unary operator tag.
pub open spec fn enc_unary(op: UnaryOp) -> Seq<u8> {
    match op {
        UnaryOp::Positive => seq![0u8],
        UnaryOp::Negative => seq![1u8],
        UnaryOp::Not => seq![2u8],
    }
}

/// A binary operator tag.
pub open spec fn enc_binop(op: BinaryOp) -> Seq<u8> {
    match op {
        BinaryOp::Mul => seq![0u8],
        BinaryOp::Div => seq![1u8],
        BinaryOp::Mod => seq![2u8],
        BinaryOp::Add => seq![3u8],
        BinaryOp::Sub => seq![4u8],
        BinaryOp::Lt => seq![5u8],
        BinaryOp::Gt => seq![6u8],
        BinaryOp::Le => seq![7u8],
        BinaryOp::Ge => seq![8u8],
        BinaryOp::Eq => seq![9u8],
        BinaryOp::Neq => seq![10u8],
    }
}

/// A built-in function tag.
pub open spec fn enc_builtin(f: &BuiltinFunction) -> Seq<u8> {
    match f {
        BuiltinFunction::Import => seq![0u8],
        BuiltinFunction::Module => seq![1u8],
        BuiltinFunction::DoMagic => seq![2u8],
        BuiltinFunction::FirstModule => seq![3u8],
    }
}

/// A parameter: type, name, span.
pub open spec fn enc_param(p: &Param) -> Seq<u8> {
    enc_vtype(&p.ty) + enc_string(&p.id) + enc_span(&p.span)
}

/// The elements of the list, in order.
pub open spec fn enc_params_body(v: Seq<Param>) -> Seq<u8>
    decreases v.len(),
{
    if v.len() == 0 {
        seq![]
    } else {
        enc_params_body(v.drop_last()) + enc_param(&v.last())
    }
}

/// A parameter list: its length, then each parameter.
pub open spec fn enc_params(v: Seq<Param>) -> Seq<u8> {
    enc_u64(v.len() as u64) + enc_params_body(v)
}

/// A class member: type, name, span.
pub open spec fn enc_member(m: &ClassMember) -> Seq<u8> {
    enc_vtype(&m.ty) + enc_string(&m.id) + enc_span(&m.span)
}

/// The elements of the list, in order.
pub open spec fn enc_members_body(v: Seq<ClassMember>) -> Seq<u8>
    decreases v.len(),
{
    if v.len() == 0 {
        seq![]
    } else {
        enc_members_body(v.drop_last()) + enc_member(&v.last())
    }
}

/// A class member list: its length, then each member.
pub open spec fn enc_members(v: Seq<ClassMember>) -> Seq<u8> {
    enc_u64(v.len() as u64) + enc_members_body(v)
}

/// An attribute list: the names, then the span.
pub open spec fn enc_attributes(a: &Attributes) -> Seq<u8> {
    enc_strings(a.attrs@) + enc_span(&a.span)
}

/// Optional attributes: an absence/presence tag, then the attributes.
pub open spec fn enc_opt_attributes(a: &Option<Attributes>) -> Seq<u8> {
    match a {
        None => seq![0u8],
        Some(attrs) => seq![1u8] + enc_attributes(attrs),
    }
}

/// A prototype: return type, parameters, span.
pub open spec fn enc_proto(p: &ProtoDef) -> Seq<u8> {
    enc_vtype(&p.func_type) + enc_params(p.params@) + enc_span(&p.span)
}

/// A terminator: a tag, then the span.
pub open spec fn enc_terminator(t: &Terminator) -> Seq<u8> {
    match t {
        Terminator::Break(span) => seq![0u8] + enc_span(span),
        Terminator::Continue(span) => seq![1u8] + enc_span(span),
    }
}

// The tree is mutually recursive through expressions, statements, blocks
// and declarations; so are their encodings.
/// An expression: a variant tag, then its fields in order.
pub open spec fn enc_exp(e: &Exp) -> Seq<u8>
    decreases e, 2int,
{
    match e {
        Exp::Exp(inner, span) => seq![0u8] + enc_exp(inner) + enc_span(span),
        Exp::Number(n) => seq![1u8] + enc_u64(n.num) + enc_span(&n.span),
        Exp::LVal(lval) => seq![2u8] + enc_lval(lval),
        Exp::FuncCall(c) => seq![3u8] + enc_strings(c.ids@) + enc_exps(c.args@) + enc_span(&c.span),
        Exp::Str(s, span) => seq![4u8] + enc_string(s) + enc_span(span),
        Exp::Unary(op, inner, span) => seq![5u8] + enc_unary(*op) + enc_exp(inner) + enc_span(span),
        Exp::Binary(lhs, op, rhs, span) => seq![6u8] + enc_exp(lhs) + enc_binop(*op) + enc_exp(rhs)
            + enc_span(span),
        Exp::GetAddr(g) => seq![7u8] + enc_lval(&g.lval) + enc_span(&g.span),
        Exp::Deref(d) => seq![8u8] + enc_deref(d),
        Exp::Array(a) => seq![9u8] + enc_array(a),
    }
}

/// The elements of the list, in order.
pub open spec fn enc_exps_body(v: Seq<Exp>) -> Seq<u8>
    decreases v, 0int,
{
    if v.len() == 0 {
        seq![]
    } else {
        enc_exps_body(v.drop_last()) + enc_exp(&v.last())
    }
}

/// An expression list: its length, then each expression.
pub open spec fn enc_exps(v: Seq<Exp>) -> Seq<u8>
    decreases v, 1int,
{
    enc_u64(v.len() as u64) + enc_exps_body(v)
}

/// An optional expression.
pub open spec fn enc_opt_exp(e: &Option<Exp>) -> Seq<u8>
    decreases e, 2int,
{
    match e {
        None => seq![0u8],
        Some(exp) => seq![1u8] + enc_exp(exp),
    }
}

/// An lvalue: its path, its span, its optional index expression.
pub open spec fn enc_lval(l: &LVal) -> Seq<u8>
    decreases l, 2int,
{
    enc_strings(l.ids@) + enc_span(&l.span) + enc_opt_exp(&l.exp)
}

/// A dereference: a shape tag, then its fields.
pub open spec fn enc_deref(d: &Deref) -> Seq<u8>
    decreases d, 2int,
{
    match d {
        Deref::DerefId(l, span) => seq![0u8] + enc_lval(l) + enc_span(span),
        Deref::DerefExp(e, span) => seq![1u8] + enc_exp(e) + enc_span(span),
        Deref::DerefPtrExp(e, off, span) => seq![2u8] + enc_exp(e) + enc_exp(off) + enc_span(span),
        Deref::DerefPtr(l, off, span) => seq![3u8] + enc_lval(l) + enc_exp(off) + enc_span(span),
    }
}

/// An array literal: a form tag, then its fields.
pub open spec fn enc_array(a: &Array) -> Seq<u8>
    decreases a, 2int,
{
    match a {
        Array::List(items, span) => seq![0u8] + enc_exps(items@) + enc_span(span),
        Array::Template(value, count, span) => seq![1u8] + enc_exp(value) + enc_exp(&count.exp)
            + enc_span(span),
    }
}

/// A statement: a variant tag, then its fields in order.
pub open spec fn enc_stmt(s: &Stmt) -> Seq<u8>
    decreases s, 2int,
{
    match s {
        Stmt::Assign(a) => seq![0u8] + enc_assign(a),
        Stmt::Return(r) => seq![1u8] + enc_exp(&r.exp) + enc_span(&r.span),
        Stmt::Block(b) => seq![2u8] + enc_block(b),
        Stmt::Exp(e) => seq![3u8] + enc_opt_exp(e),
        Stmt::If(i) => seq![4u8] + enc_exp(&i.cond) + enc_block(&i.body) + enc_opt_block(
            &i.else_body,
        ) + enc_span(&i.span),
        Stmt::InlineAsm(a) => seq![5u8] + enc_inline_asm(a),
        Stmt::While(w) => seq![6u8] + enc_exp(&w.cond) + enc_block(&w.body) + enc_span(&w.span),
        Stmt::Terminator(t) => seq![7u8] + enc_terminator(t),
        Stmt::For(f) => seq![8u8] + enc_string(&f.var) + enc_exp(&f.start) + enc_exp(&f.end)
            + enc_exp(&f.step) + enc_block(&f.body) + enc_span(&f.span),
    }
}

/// An assignment: a target tag, then its fields.
pub open spec fn enc_assign(a: &Assign) -> Seq<u8>
    decreases a, 2int,
{
    match a {
        Assign::WriteVar(l, e, span) => seq![0u8] + enc_lval(l) + enc_exp(e) + enc_span(span),
        Assign::WritePtr(d, e, span) => seq![1u8] + enc_deref(d) + enc_exp(e) + enc_span(span),
    }
}

/// An inline-assembly statement: text, constraints, span.
pub open spec fn enc_inline_asm(a: &InlineAsm) -> Seq<u8>
    decreases a, 2int,
{
    enc_string(&a.code) + enc_constraints(a.constraints@) + enc_span(&a.span)
}

/// The elements of the list, in order.
pub open spec fn enc_constraints_body(v: Seq<AsmConstraint>) -> Seq<u8>
    decreases v, 0int,
{
    if v.len() == 0 {
        seq![]
    } else {
        enc_constraints_body(v.drop_last()) + enc_constraint(&v.last())
    }
}

/// A constraint list: its length, then each constraint.
pub open spec fn enc_constraints(v: Seq<AsmConstraint>) -> Seq<u8>
    decreases v, 1int,
{
    enc_u64(v.len() as u64) + enc_constraints_body(v)
}

/// One operand constraint: a direction tag, then its fields.
pub open spec fn enc_constraint(c: &AsmConstraint) -> Seq<u8>
    decreases c, 2int,
{
    match c {
        AsmConstraint::In(id, e, span) => seq![0u8] + enc_string(id) + enc_exp(e) + enc_span(span),
        AsmConstraint::Out(id, l, span) => seq![1u8] + enc_string(id) + enc_lval(l) + enc_span(
            span,
        ),
    }
}

/// An optional block.
pub open spec fn enc_opt_block(b: &Option<Block>) -> Seq<u8>
    decreases b, 2int,
{
    match b {
        None => seq![0u8],
        Some(block) => seq![1u8] + enc_block(block),
    }
}

/// A block: its items, then its span.
pub open spec fn enc_block(b: &Block) -> Seq<u8>
    decreases b, 2int,
{
    enc_block_items(b.items@) + enc_span(&b.span)
}

/// The elements of the list, in order.
pub open spec fn enc_block_items_body(v: Seq<BlockItem>) -> Seq<u8>
    decreases v, 0int,
{
    if v.len() == 0 {
        seq![]
    } else {
        enc_block_items_body(v.drop_last()) + enc_block_item(&v.last())
    }
}

/// A block item list: its length, then each item.
pub open spec fn enc_block_items(v: Seq<BlockItem>) -> Seq<u8>
    decreases v, 1int,
{
    enc_u64(v.len() as u64) + enc_block_items_body(v)
}

/// One block item: declaration or statement.
pub open spec fn enc_block_item(i: &BlockItem) -> Seq<u8>
    decreases i, 2int,
{
    match i {
        BlockItem::Decl(d) => seq![0u8] + enc_decl(d),
        BlockItem::Stmt(s) => seq![1u8] + enc_stmt(s),
    }
}

/// A declaration: constant or variable.
pub open spec fn enc_decl(d: &Decl) -> Seq<u8>
    decreases d, 2int,
{
    match d {
        Decl::Const(c) => seq![0u8] + enc_const_decl(c),
        Decl::Var(v) => seq![1u8] + enc_var_decl(v),
    }
}

/// A variable declaration: name, type, initializer, span.
pub open spec fn enc_var_decl(v: &VarDecl) -> Seq<u8>
    decreases v, 2int,
{
    enc_string(&v.id) + enc_vtype(&v.ty) + enc_exp(&v.init.exp) + enc_span(&v.span)
}

/// A constant declaration: optional attributes, name, initializer, span.
pub open spec fn enc_const_decl(d: &ConstDecl) -> Seq<u8>
    decreases d, 2int,
{
    enc_opt_attributes(&d.attr) + enc_string(&d.id) + enc_const_init(&d.init) + enc_span(&d.span)
}

/// A constant initializer: a variant tag, then its payload.
pub open spec fn enc_const_init(iv: &ConstInitVal) -> Seq<u8>
    decreases iv, 2int,
{
    match iv {
        ConstInitVal::Exp(ce) => seq![0u8] + enc_exp(&ce.exp),
        ConstInitVal::Function(f) => seq![1u8] + enc_func_def(f),
        ConstInitVal::Proto(p) => seq![2u8] + enc_proto(p),
        ConstInitVal::Class(c) => seq![3u8] + enc_class(c),
    }
}

/// A function definition: return type, body, parameters, span.
pub open spec fn enc_func_def(f: &FuncDef) -> Seq<u8>
    decreases f, 2int,
{
    enc_vtype(&f.func_type) + enc_block(&f.block) + enc_params(f.params@) + enc_span(&f.span)
}

/// A class definition: members, constants, span.
pub open spec fn enc_class(c: &ClassDef) -> Seq<u8>
    decreases c, 2int,
{
    enc_members(c.members@) + enc_const_decls(c.consts@) + enc_span(&c.span)
}

/// The elements of the list, in order.
pub open spec fn enc_const_decls_body(v: Seq<ConstDecl>) -> Seq<u8>
    decreases v, 0int,
{
    if v.len() == 0 {
        seq![]
    } else {
        enc_const_decls_body(v.drop_last()) + enc_const_decl(&v.last())
    }
}

/// A constant declaration list: its length, then each declaration.
pub open spec fn enc_const_decls(v: Seq<ConstDecl>) -> Seq<u8>
    decreases v, 1int,
{
    enc_u64(v.len() as u64) + enc_const_decls_body(v)
}

/// A top-level item: a variant tag, then its payload.
pub open spec fn enc_global_item(g: &GlobalItem) -> Seq<u8>
    decreases g, 2int,
{
    match g {
        GlobalItem::ConstDecl(d) => seq![0u8] + enc_const_decl(d),
        GlobalItem::BuiltinFnCall(c) => seq![1u8] + enc_builtin(&c.func) + enc_exps(c.args@)
            + enc_span(&c.span),
        GlobalItem::InlineAsm(a) => seq![2u8] + enc_inline_asm(a),
    }
}

/// The elements of the list, in order.
pub open spec fn enc_global_items_body(v: Seq<GlobalItem>) -> Seq<u8>
    decreases v, 0int,
{
    if v.len() == 0 {
        seq![]
    } else {
        enc_global_items_body(v.drop_last()) + enc_global_item(&v.last())
    }
}

/// A top-level item list: its length, then each item.
pub open spec fn enc_global_items(v: Seq<GlobalItem>) -> Seq<u8>
    decreases v, 1int,
{
    enc_u64(v.len() as u64) + enc_global_items_body(v)
}

/// A whole compilation unit: its items, then its span.
pub open spec fn enc_unit(u: &CompUnit) -> Seq<u8>
    decreases u, 2int,
{
    enc_global_items(u.global_items@) + enc_span(&u.span)
}

// ---------------------------------------------------------------------------
// The serializer
// ---------------------------------------------------------------------------
/// Appends all of `bs` to `out`.
fn push_bytes(out: &mut Vec<u8>, bs: &Vec<u8>)
    ensures
        final(out)@ == old(out)@ + bs@,
{
    proof {
        assert(old(out)@ + bs@.take(0) =~= old(out)@);
    }
    let mut i: usize = 0;
    while i < bs.len()
        invariant
            0 <= i <= bs.len(),
            out@ == old(out)@ + bs@.take(i as int),
        decreases bs.len() - i,
    {
        out.push(bs[i]);
        proof {
            assert(out@ =~= old(out)@ + bs@.take(i + 1));
        }
        i = i + 1;
    }
    proof {
        assert(bs@.take(bs.len() as int) =~= bs@);
    }
}

fn ser_u64(out: &mut Vec<u8>, x: u64)
    ensures
        final(out)@ == old(out)@ + enc_u64(x),
{
    let bs = u64_to_le_bytes(x);
    push_bytes(out, &bs);
}

fn ser_usize(out: &mut Vec<u8>, x: usize)
    ensures
        final(out)@ == old(out)@ + enc_usize(x),
{
    ser_u64(out, x as u64);
}

fn ser_char(out: &mut Vec<u8>, c: char)
    ensures
        final(out)@ == old(out)@ + enc_char(c),
{
    let bs = u32_to_le_bytes(c as u32);
    push_bytes(out, &bs);
}

fn ser_string(out: &mut Vec<u8>, s: &String)
    ensures
        final(out)@ == old(out)@ + enc_string(s),
{
    let ss = s.as_str();
    let n = ss.unicode_len();
    ser_u64(out, n as u64);
    proof {
        assert(old(out)@ + enc_u64(s@.len() as u64) + enc_chars(s@.take(0)) =~= out@);
    }
    let mut i: usize = 0;
    while i < n
        invariant
            0 <= i <= n,
            n == s@.len(),
            ss@ == s@,
            out@ == old(out)@ + enc_u64(s@.len() as u64) + enc_chars(s@.take(i as int)),
        decreases n - i,
    {
        ser_char(out, ss.get_char(i));
        proof {
            assert(s@.take(i + 1).drop_last() =~= s@.take(i as int));
            assert(out@ =~= old(out)@ + enc_u64(s@.len() as u64) + enc_chars(s@.take(i + 1)));
        }
        i = i + 1;
    }
    proof {
        assert(s@.take(n as int) =~= s@);
        assert(out@ =~= old(out)@ + enc_string(s));
    }
}

fn ser_strings(out: &mut Vec<u8>, v: &Vec<String>)
    ensures
        final(out)@ == old(out)@ + enc_strings(v@),
{
    ser_u64(out, v.len() as u64);
    proof {
        assert(out@ =~= old(out)@ + enc_u64(v@.len() as u64) + enc_strings_body(v@.take(0)));
    }
    let mut i: usize = 0;
    while i < v.len()
        invariant
            0 <= i <= v.len(),
            out@ == old(out)@ + enc_u64(v@.len() as u64) + enc_strings_body(v@.take(i as int)),
        decreases v.len() - i,
    {
        ser_string(out, &v[i]);
        proof {
            assert(v@.take(i + 1).drop_last() =~= v@.take(i as int));
            assert(out@ =~= old(out)@ + enc_u64(v@.len() as u64) + enc_strings_body(
                v@.take(i + 1),
            ));
        }
        i = i + 1;
    }
    proof {
        assert(v@.take(v.len() as int) =~= v@);
        assert(out@ =~= old(out)@ + enc_strings(v@));
    }
}

fn ser_span(out: &mut Vec<u8>, s: &Span)
    ensures
        final(out)@ == old(out)@ + enc_span(s),
{
    ser_usize(out, s.start.0);
    ser_usize(out, s.start.1);
    ser_usize(out, s.end.0);
    ser_usize(out, s.end.1);
    ser_string(out, &s.string);
    ser_string(out, &s.file);
    proof {
        assert(out@ =~= old(out)@ + enc_span(s));
    }
}

fn ser_vtype(out: &mut Vec<u8>, t: &VType)
    ensures
        final(out)@ == old(out)@ + enc_vtype(t),
{
    match &t.ty {
        VTypeEnum::U64 => out.push(0u8),
        VTypeEnum::I8 => out.push(1u8),
        VTypeEnum::Void => out.push(2u8),
        VTypeEnum::Others(name) => {
            out.push(3u8);
            ser_string(out, name);
        },
    }
    proof {
        assert(out@ =~= old(out)@ + enc_base(&t.ty));
    }
    ser_usize(out, t.star);
    ser_span(out, &t.span);
    proof {
        assert(out@ =~= old(out)@ + enc_vtype(t));
    }
}

fn ser_param(out: &mut Vec<u8>, p: &Param)
    ensures
        final(out)@ == old(out)@ + enc_param(p),
{
    ser_vtype(out, &p.ty);
    ser_string(out, &p.id);
    ser_span(out, &p.span);
    proof {
        assert(out@ =~= old(out)@ + enc_param(p));
    }
}

fn ser_params(out: &mut Vec<u8>, v: &Vec<Param>)
    ensures
        final(out)@ == old(out)@ + enc_params(v@),
{
    ser_u64(out, v.len() as u64);
    proof {
        assert(out@ =~= old(out)@ + enc_u64(v@.len() as u64) + enc_params_body(v@.take(0)));
    }
    let mut i: usize = 0;
    while i < v.len()
        invariant
            0 <= i <= v.len(),
            out@ == old(out)@ + enc_u64(v@.len() as u64) + enc_params_body(v@.take(i as int)),
        decreases v.len() - i,
    {
        ser_param(out, &v[i]);
        proof {
            assert(v@.take(i + 1).drop_last() =~= v@.take(i as int));
            assert(out@ =~= old(out)@ + enc_u64(v@.len() as u64) + enc_params_body(v@.take(i + 1)));
        }
        i = i + 1;
    }
    proof {
        assert(v@.take(v.len() as int) =~= v@);
        assert(out@ =~= old(out)@ + enc_params(v@));
    }
}

fn ser_member(out: &mut Vec<u8>, m: &ClassMember)
    ensures
        final(out)@ == old(out)@ + enc_member(m),
{
    ser_vtype(out, &m.ty);
    ser_string(out, &m.id);
    ser_span(out, &m.span);
    proof {
        assert(out@ =~= old(out)@ + enc_member(m));
    }
}

fn ser_members(out: &mut Vec<u8>, v: &Vec<ClassMember>)
    ensures
        final(out)@ == old(out)@ + enc_members(v@),
{
    ser_u64(out, v.len() as u64);
    proof {
        assert(out@ =~= old(out)@ + enc_u64(v@.len() as u64) + enc_members_body(v@.take(0)));
    }
    let mut i: usize = 0;
    while i < v.len()
        invariant
            0 <= i <= v.len(),
            out@ == old(out)@ + enc_u64(v@.len() as u64) + enc_members_body(v@.take(i as int)),
        decreases v.len() - i,
    {
        ser_member(out, &v[i]);
        proof {
            assert(v@.take(i + 1).drop_last() =~= v@.take(i as int));
            assert(out@ =~= old(out)@ + enc_u64(v@.len() as u64) + enc_members_body(
                v@.take(i + 1),
            ));
        }
        i = i + 1;
    }
    proof {
        assert(v@.take(v.len() as int) =~= v@);
        assert(out@ =~= old(out)@ + enc_members(v@));
    }
}

fn ser_attributes(out: &mut Vec<u8>, a: &Attributes)
    ensures
        final(out)@ == old(out)@ + enc_attributes(a),
{
    ser_strings(out, &a.attrs);
    ser_span(out, &a.span);
    proof {
        assert(out@ =~= old(out)@ + enc_attributes(a));
    }
}

fn ser_proto(out: &mut Vec<u8>, p: &ProtoDef)
    ensures
        final(out)@ == old(out)@ + enc_proto(p),
{
    ser_vtype(out, &p.func_type);
    ser_params(out, &p.params);
    ser_span(out, &p.span);
    proof {
        assert(out@ =~= old(out)@ + enc_proto(p));
    }
}

fn ser_exp(out: &mut Vec<u8>, e: &Exp)
    ensures
        final(out)@ == old(out)@ + enc_exp(e),
    decreases *e,
{
    match e {
        Exp::Exp(inner, span) => {
            out.push(0u8);
            ser_exp(out, inner);
            ser_span(out, span);
        },
        Exp::Number(n) => {
            out.push(1u8);
            ser_u64(out, n.num);
            ser_span(out, &n.span);
        },
        Exp::LVal(lval) => {
            out.push(2u8);
            ser_lval(out, lval);
        },
        Exp::FuncCall(c) => {
            out.push(3u8);
            ser_strings(out, &c.ids);
            ser_exps(out, &c.args);
            ser_span(out, &c.span);
        },
        Exp::Str(s, span) => {
            out.push(4u8);
            ser_string(out, s);
            ser_span(out, span);
        },
        Exp::Unary(op, inner, span) => {
            out.push(5u8);
            match op {
                UnaryOp::Positive => out.push(0u8),
                UnaryOp::Negative => out.push(1u8),
                UnaryOp::Not => out.push(2u8),
            }
            ser_exp(out, inner);
            ser_span(out, span);
        },
        Exp::Binary(lhs, op, rhs, span) => {
            out.push(6u8);
            ser_exp(out, lhs);
            match op {
                BinaryOp::Mul => out.push(0u8),
                BinaryOp::Div => out.push(1u8),
                BinaryOp::Mod => out.push(2u8),
                BinaryOp::Add => out.push(3u8),
                BinaryOp::Sub => out.push(4u8),
                BinaryOp::Lt => out.push(5u8),
                BinaryOp::Gt => out.push(6u8),
                BinaryOp::Le => out.push(7u8),
                BinaryOp::Ge => out.push(8u8),
                BinaryOp::Eq => out.push(9u8),
                BinaryOp::Neq => out.push(10u8),
            }
            ser_exp(out, rhs);
            ser_span(out, span);
        },
        Exp::GetAddr(g) => {
            out.push(7u8);
            ser_lval(out, &g.lval);
            ser_span(out, &g.span);
        },
        Exp::Deref(d) => {
            out.push(8u8);
            ser_deref(out, d);
        },
        Exp::Array(a) => {
            out.push(9u8);
            ser_array(out, a);
        },
    }
    proof {
        assert(out@ =~= old(out)@ + enc_exp(e));
    }
}

fn ser_exps(out: &mut Vec<u8>, v: &Vec<Exp>)
    ensures
        final(out)@ == old(out)@ + enc_exps(v@),
    decreases *v,
{
    ser_u64(out, v.len() as u64);
    proof {
        assert(out@ =~= old(out)@ + enc_u64(v@.len() as u64) + enc_exps_body(v@.take(0)));
    }
    let mut i: usize = 0;
    while i < v.len()
        invariant
            0 <= i <= v.len(),
            out@ == old(out)@ + enc_u64(v@.len() as u64) + enc_exps_body(v@.take(i as int)),
        decreases v.len() - i,
    {
        ser_exp(out, &v[i]);
        proof {
            assert(v@.take(i + 1).drop_last() =~= v@.take(i as int));
            assert(out@ =~= old(out)@ + enc_u64(v@.len() as u64) + enc_exps_body(v@.take(i + 1)));
        }
        i = i + 1;
    }
    proof {
        assert(v@.take(v.len() as int) =~= v@);
        assert(out@ =~= old(out)@ + enc_exps(v@));
    }
}

fn ser_opt_exp(out: &mut Vec<u8>, e: &Option<Exp>)
    ensures
        final(out)@ == old(out)@ + enc_opt_exp(e),
    decreases *e,
{
    match e {
        None => out.push(0u8),
        Some(exp) => {
            out.push(1u8);
            ser_exp(out, exp);
        },
    }
    proof {
        assert(out@ =~= old(out)@ + enc_opt_exp(e));
    }
}

fn ser_lval(out: &mut Vec<u8>, l: &LVal)
    ensures
        final(out)@ == old(out)@ + enc_lval(l),
    decreases *l,
{
    ser_strings(out, &l.ids);
    ser_span(out, &l.span);
    ser_opt_exp(out, &l.exp);
    proof {
        assert(out@ =~= old(out)@ + enc_lval(l));
    }
}

fn ser_deref(out: &mut Vec<u8>, d: &Deref)
    ensures
        final(out)@ == old(out)@ + enc_deref(d),
    decreases *d,
{
    match d {
        Deref::DerefId(l, span) => {
            out.push(0u8);
            ser_lval(out, l);
            ser_span(out, span);
        },
        Deref::DerefExp(e, span) => {
            out.push(1u8);
            ser_exp(out, e);
            ser_span(out, span);
        },
        Deref::DerefPtrExp(e, off, span) => {
            out.push(2u8);
            ser_exp(out, e);
            ser_exp(out, off);
            ser_span(out, span);
        },
        Deref::DerefPtr(l, off, span) => {
            out.push(3u8);
            ser_lval(out, l);
            ser_exp(out, off);
            ser_span(out, span);
        },
    }
    proof {
        assert(out@ =~= old(out)@ + enc_deref(d));
    }
}

fn ser_array(out: &mut Vec<u8>, a: &Array)
    ensures
        final(out)@ == old(out)@ + enc_array(a),
    decreases *a,
{
    match a {
        Array::List(items, span) => {
            out.push(0u8);
            ser_exps(out, items);
            ser_span(out, span);
        },
        Array::Template(value, count, span) => {
            out.push(1u8);
            ser_exp(out, value);
            ser_exp(out, &count.exp);
            ser_span(out, span);
        },
    }
    proof {
        assert(out@ =~= old(out)@ + enc_array(a));
    }
}

#[verifier::rlimit(50)]
fn ser_stmt(out: &mut Vec<u8>, s: &Stmt)
    ensures
        final(out)@ == old(out)@ + enc_stmt(s),
    decreases *s,
{
    match s {
        Stmt::Assign(a) => {
            out.push(0u8);
            ser_assign(out, a);
        },
        Stmt::Return(r) => {
            out.push(1u8);
            ser_exp(out, &r.exp);
            ser_span(out, &r.span);
        },
        Stmt::Block(b) => {
            out.push(2u8);
            ser_block(out, b);
        },
        Stmt::Exp(e) => {
            out.push(3u8);
            ser_opt_exp(out, e);
        },
        Stmt::If(i) => {
            out.push(4u8);
            ser_exp(out, &i.cond);
            ser_block(out, &i.body);
            match &i.else_body {
                None => out.push(0u8),
                Some(b) => {
                    out.push(1u8);
                    ser_block(out, b);
                },
            }
            proof {
                assert(out@ =~= old(out)@ + seq![4u8] + enc_exp(&i.cond) + enc_block(&i.body)
                    + enc_opt_block(&i.else_body));
            }
            ser_span(out, &i.span);
        },
        Stmt::InlineAsm(a) => {
            out.push(5u8);
            ser_inline_asm(out, a);
        },
        Stmt::While(w) => {
            out.push(6u8);
            ser_exp(out, &w.cond);
            ser_block(out, &w.body);
            ser_span(out, &w.span);
        },
        Stmt::Terminator(t) => {
            out.push(7u8);
            match t {
                Terminator::Break(span) => {
                    out.push(0u8);
                    ser_span(out, span);
                },
                Terminator::Continue(span) => {
                    out.push(1u8);
                    ser_span(out, span);
                },
            }
        },
        Stmt::For(f) => {
            out.push(8u8);
            ser_string(out, &f.var);
            ser_exp(out, &f.start);
            ser_exp(out, &f.end);
            ser_exp(out, &f.step);
            ser_block(out, &f.body);
            ser_span(out, &f.span);
        },
    }
    proof {
        assert(out@ =~= old(out)@ + enc_stmt(s));
    }
}

fn ser_assign(out: &mut Vec<u8>, a: &Assign)
    ensures
        final(out)@ == old(out)@ + enc_assign(a),
    decreases *a,
{
    match a {
        Assign::WriteVar(l, e, span) => {
            out.push(0u8);
            ser_lval(out, l);
            ser_exp(out, e);
            ser_span(out, span);
        },
        Assign::WritePtr(d, e, span) => {
            out.push(1u8);
            ser_deref(out, d);
            ser_exp(out, e);
            ser_span(out, span);
        },
    }
    proof {
        assert(out@ =~= old(out)@ + enc_assign(a));
    }
}

fn ser_inline_asm(out: &mut Vec<u8>, a: &InlineAsm)
    ensures
        final(out)@ == old(out)@ + enc_inline_asm(a),
    decreases *a,
{
    ser_string(out, &a.code);
    ser_u64(out, a.constraints.len() as u64);
    proof {
        assert(out@ =~= old(out)@ + enc_string(&a.code) + enc_u64(a.constraints@.len() as u64)
            + enc_constraints_body(a.constraints@.take(0)));
    }
    let mut i: usize = 0;
    while i < a.constraints.len()
        invariant
            0 <= i <= a.constraints.len(),
            out@ == old(out)@ + enc_string(&a.code) + enc_u64(a.constraints@.len() as u64)
                + enc_constraints_body(a.constraints@.take(i as int)),
        decreases a.constraints.len() - i,
    {
        ser_constraint(out, &a.constraints[i]);
        proof {
            assert(a.constraints@.take(i + 1).drop_last() =~= a.constraints@.take(i as int));
            assert(out@ =~= old(out)@ + enc_string(&a.code) + enc_u64(a.constraints@.len() as u64)
                + enc_constraints_body(a.constraints@.take(i + 1)));
        }
        i = i + 1;
    }
    ser_span(out, &a.span);
    proof {
        assert(a.constraints@.take(a.constraints.len() as int) =~= a.constraints@);
        assert(out@ =~= old(out)@ + enc_inline_asm(a));
    }
}

fn ser_constraint(out: &mut Vec<u8>, c: &AsmConstraint)
    ensures
        final(out)@ == old(out)@ + enc_constraint(c),
    decreases *c,
{
    match c {
        AsmConstraint::In(id, e, span) => {
            out.push(0u8);
            ser_string(out, id);
            ser_exp(out, e);
            ser_span(out, span);
        },
        AsmConstraint::Out(id, l, span) => {
            out.push(1u8);
            ser_string(out, id);
            ser_lval(out, l);
            ser_span(out, span);
        },
    }
    proof {
        assert(out@ =~= old(out)@ + enc_constraint(c));
    }
}

fn ser_block(out: &mut Vec<u8>, b: &Block)
    ensures
        final(out)@ == old(out)@ + enc_block(b),
    decreases *b,
{
    ser_u64(out, b.items.len() as u64);
    proof {
        assert(out@ =~= old(out)@ + enc_u64(b.items@.len() as u64) + enc_block_items_body(
            b.items@.take(0),
        ));
    }
    let mut i: usize = 0;
    while i < b.items.len()
        invariant
            0 <= i <= b.items.len(),
            out@ == old(out)@ + enc_u64(b.items@.len() as u64) + enc_block_items_body(
                b.items@.take(i as int),
            ),
        decreases b.items.len() - i,
    {
        ser_block_item(out, &b.items[i]);
        proof {
            assert(b.items@.take(i + 1).drop_last() =~= b.items@.take(i as int));
            assert(out@ =~= old(out)@ + enc_u64(b.items@.len() as u64) + enc_block_items_body(
                b.items@.take(i + 1),
            ));
        }
        i = i + 1;
    }
    ser_span(out, &b.span);
    proof {
        assert(b.items@.take(b.items.len() as int) =~= b.items@);
        assert(out@ =~= old(out)@ + enc_block(b));
    }
}

fn ser_block_item(out: &mut Vec<u8>, item: &BlockItem)
    ensures
        final(out)@ == old(out)@ + enc_block_item(item),
    decreases *item,
{
    match item {
        BlockItem::Decl(d) => {
            out.push(0u8);
            ser_decl(out, d);
        },
        BlockItem::Stmt(s) => {
            out.push(1u8);
            ser_stmt(out, s);
        },
    }
    proof {
        assert(out@ =~= old(out)@ + enc_block_item(item));
    }
}

fn ser_decl(out: &mut Vec<u8>, d: &Decl)
    ensures
        final(out)@ == old(out)@ + enc_decl(d),
    decreases *d,
{
    match d {
        Decl::Const(c) => {
            out.push(0u8);
            ser_const_decl(out, c);
        },
        Decl::Var(v) => {
            out.push(1u8);
            ser_string(out, &v.id);
            ser_vtype(out, &v.ty);
            ser_exp(out, &v.init.exp);
            ser_span(out, &v.span);
        },
    }
    proof {
        assert(out@ =~= old(out)@ + enc_decl(d));
    }
}

#[verifier::rlimit(60)]
fn ser_const_decl(out: &mut Vec<u8>, d: &ConstDecl)
    ensures
        final(out)@ == old(out)@ + enc_const_decl(d),
    decreases *d,
{
    match &d.attr {
        None => out.push(0u8),
        Some(attrs) => {
            out.push(1u8);
            ser_attributes(out, attrs);
        },
    }
    proof {
        assert(out@ =~= old(out)@ + enc_opt_attributes(&d.attr));
    }
    ser_string(out, &d.id);
    match &d.init {
        ConstInitVal::Exp(ce) => {
            out.push(0u8);
            ser_exp(out, &ce.exp);
        },
        ConstInitVal::Function(f) => {
            out.push(1u8);
            ser_func_def(out, f);
        },
        ConstInitVal::Proto(p) => {
            out.push(2u8);
            ser_proto(out, p);
        },
        ConstInitVal::Class(c) => {
            out.push(3u8);
            ser_class(out, c);
        },
    }
    proof {
        assert(out@ =~= old(out)@ + enc_opt_attributes(&d.attr) + enc_string(&d.id)
            + enc_const_init(&d.init));
    }
    ser_span(out, &d.span);
    proof {
        assert(out@ =~= old(out)@ + enc_const_decl(d));
    }
}

fn ser_func_def(out: &mut Vec<u8>, f: &FuncDef)
    ensures
        final(out)@ == old(out)@ + enc_func_def(f),
    decreases *f,
{
    ser_vtype(out, &f.func_type);
    ser_block(out, &f.block);
    ser_params(out, &f.params);
    ser_span(out, &f.span);
    proof {
        assert(out@ =~= old(out)@ + enc_func_def(f));
    }
}

fn ser_class(out: &mut Vec<u8>, c: &ClassDef)
    ensures
        final(out)@ == old(out)@ + enc_class(c),
    decreases *c,
{
    ser_members(out, &c.members);
    ser_u64(out, c.consts.len() as u64);
    proof {
        assert(out@ =~= old(out)@ + enc_members(c.members@) + enc_u64(c.consts@.len() as u64)
            + enc_const_decls_body(c.consts@.take(0)));
    }
    let mut i: usize = 0;
    while i < c.consts.len()
        invariant
            0 <= i <= c.consts.len(),
            out@ == old(out)@ + enc_members(c.members@) + enc_u64(c.consts@.len() as u64)
                + enc_const_decls_body(c.consts@.take(i as int)),
        decreases c.consts.len() - i,
    {
        ser_const_decl(out, &c.consts[i]);
        proof {
            assert(c.consts@.take(i + 1).drop_last() =~= c.consts@.take(i as int));
            assert(out@ =~= old(out)@ + enc_members(c.members@) + enc_u64(c.consts@.len() as u64)
                + enc_const_decls_body(c.consts@.take(i + 1)));
        }
        i = i + 1;
    }
    ser_span(out, &c.span);
    proof {
        assert(c.consts@.take(c.consts.len() as int) =~= c.consts@);
        assert(out@ =~= old(out)@ + enc_class(c));
    }
}

fn ser_global_item(out: &mut Vec<u8>, g: &GlobalItem)
    ensures
        final(out)@ == old(out)@ + enc_global_item(g),
    decreases *g,
{
    match g {
        GlobalItem::ConstDecl(d) => {
            out.push(0u8);
            ser_const_decl(out, d);
        },
        GlobalItem::BuiltinFnCall(c) => {
            out.push(1u8);
            match &c.func {
                BuiltinFunction::Import => out.push(0u8),
                BuiltinFunction::Module => out.push(1u8),
                BuiltinFunction::DoMagic => out.push(2u8),
                BuiltinFunction::FirstModule => out.push(3u8),
            }
            ser_exps(out, &c.args);
            ser_span(out, &c.span);
        },
        GlobalItem::InlineAsm(a) => {
            out.push(2u8);
            ser_inline_asm(out, a);
        },
    }
    proof {
        assert(out@ =~= old(out)@ + enc_global_item(g));
    }
}

/// Serializes a compilation unit into the binary interchange form: the
/// returned bytes are exactly `enc_unit(unit)`, so two structurally
/// identical trees always serialize to the same bytes.
pub fn serialize(unit: &CompUnit) -> (r: Vec<u8>)
    ensures
        r@ == enc_unit(unit),
{
    let mut out: Vec<u8> = Vec::new();
    ser_u64(&mut out, unit.global_items.len() as u64);
    proof {
        assert(out@ =~= enc_u64(unit.global_items@.len() as u64) + enc_global_items_body(
            unit.global_items@.take(0),
        ));
    }
    let mut i: usize = 0;
    while i < unit.global_items.len()
        invariant
            0 <= i <= unit.global_items.len(),
            out@ == enc_u64(unit.global_items@.len() as u64) + enc_global_items_body(
                unit.global_items@.take(i as int),
            ),
        decreases unit.global_items.len() - i,
    {
        ser_global_item(&mut out, &unit.global_items[i]);
        proof {
            assert(unit.global_items@.take(i + 1).drop_last() =~= unit.global_items@.take(i as int));
            assert(out@ =~= enc_u64(unit.global_items@.len() as u64) + enc_global_items_body(
                unit.global_items@.take(i + 1),
            ));
        }
        i = i + 1;
    }
    ser_span(&mut out, &unit.span);
    proof {
        assert(unit.global_items@.take(unit.global_items.len() as int) =~= unit.global_items@);
        assert(out@ =~= enc_unit(unit));
    }
    out
}


// ---------------------------------------------------------------------------
// The decoder
// ---------------------------------------------------------------------------
// The decoders below carry no value contracts: `deserialize` re-encodes
// what they build and accepts the input only on an exact byte match, so
// their only obligations are termination and staying in bounds.
/// The byte shape of an encoded span whose recorded line text and file
/// name are both empty: four machine words that fit, then two empty
/// strings.
pub open spec fn flat_span_bytes(data: Seq<u8>, pos: int) -> bool {
    &&& pos + 48 <= data.len()
    &&& spec_u64_from_le_bytes(data.subrange(pos, pos + 8)) <= usize::MAX as u64
    &&& spec_u64_from_le_bytes(data.subrange(pos + 8, pos + 16)) <= usize::MAX as u64
    &&& spec_u64_from_le_bytes(data.subrange(pos + 16, pos + 24)) <= usize::MAX as u64
    &&& spec_u64_from_le_bytes(data.subrange(pos + 24, pos + 32)) <= usize::MAX as u64
    &&& data.subrange(pos + 32, pos + 40) == enc_u64(0)
    &&& data.subrange(pos + 40, pos + 48) == enc_u64(0)
}

/// The byte shape of an encoded flat unit: no items, then a span with
/// empty texts.
pub open spec fn flat_unit_bytes(data: Seq<u8>, pos: int) -> bool {
    &&& pos + 56 <= data.len()
    &&& data.subrange(pos, pos + 8) == enc_u64(0)
    &&& flat_span_bytes(data, pos + 8)
}

/// The encoding of a flat unit — one with no items whose span texts are
/// empty — has the flat byte shape, at exactly 56 bytes.
proof fn lemma_flat_unit_bytes(u: &CompUnit, data: Seq<u8>)
    requires
        u.global_items@.len() == 0,
        u.span.string@.len() == 0,
        u.span.file@.len() == 0,
        data == enc_unit(u),
    ensures
        flat_unit_bytes(data, 0),
        data.len() == 56,
{
    lemma_auto_spec_u64_to_from_le_bytes();
    assert(enc_global_items(u.global_items@) =~= enc_u64(0));
    assert(enc_string(&u.span.string) =~= enc_u64(0));
    assert(enc_string(&u.span.file) =~= enc_u64(0));
    assert(data =~= enc_u64(0) + enc_u64(u.span.start.0 as u64) + enc_u64(u.span.start.1 as u64)
        + enc_u64(u.span.end.0 as u64) + enc_u64(u.span.end.1 as u64) + enc_u64(0) + enc_u64(0));
    assert(data.subrange(0, 8) =~= enc_u64(0));
    assert(data.subrange(8, 16) =~= enc_u64(u.span.start.0 as u64));
    assert(data.subrange(16, 24) =~= enc_u64(u.span.start.1 as u64));
    assert(data.subrange(24, 32) =~= enc_u64(u.span.end.0 as u64));
    assert(data.subrange(32, 40) =~= enc_u64(u.span.end.1 as u64));
    assert(data.subrange(40, 48) =~= enc_u64(0));
    assert(data.subrange(48, 56) =~= enc_u64(0));
}

/// Relies on `char::from_u32`: `Some` exactly when the value is a valid
/// Unicode scalar value — below the surrogate range or between it and the
/// largest code point — yielding the character with that value; `None`
/// otherwise.
#[verifier::external_body]
fn char_from_u32(v: u32) -> (r: Option<char>)
    ensures
        r matches Some(c) ==> c as u32 == v,
        (r is Some <==> (v < 0xD800 || (0xE000 <= v && v <= 0x10FFFF))),
{
    char::from_u32(v)
}

fn dec_u8(data: &Vec<u8>, pos: usize) -> (r: Option<(u8, usize)>)
    requires
        pos <= data.len(),
    ensures
        r matches Some((_, p)) ==> pos < p <= data.len(),
{
    if pos < data.len() {
        Some((data[pos], pos + 1))
    } else {
        None
    }
}

fn dec_u64(data: &Vec<u8>, pos: usize) -> (r: Option<(u64, usize)>)
    requires
        pos <= data.len(),
    ensures
        r matches Some((_, p)) ==> pos < p <= data.len(),
        pos + 8 <= data.len() ==> (r matches Some((v, p)) && p == pos + 8 && v
            == spec_u64_from_le_bytes(data@.subrange(pos as int, pos as int + 8))),
{
    if data.len() - pos < 8 {
        return None;
    }
    let bytes = slice_subrange(data.as_slice(), pos, pos + 8);
    let v = u64_from_le_bytes(bytes);
    Some((v, pos + 8))
}

fn dec_usize(data: &Vec<u8>, pos: usize) -> (r: Option<(usize, usize)>)
    requires
        pos <= data.len(),
    ensures
        r matches Some((_, p)) ==> pos < p <= data.len(),
        (pos + 8 <= data.len() && spec_u64_from_le_bytes(
            data@.subrange(pos as int, pos as int + 8),
        ) <= usize::MAX as u64) ==> (r matches Some((v, p)) && p == pos + 8 && v as u64
            == spec_u64_from_le_bytes(data@.subrange(pos as int, pos as int + 8))),
{
    let (v, p) = match dec_u64(data, pos) {
        Some(x) => x,
        None => {
            return None;
        },
    };
    if v > usize::MAX as u64 {
        return None;
    }
    Some((v as usize, p))
}

fn dec_char(data: &Vec<u8>, pos: usize) -> (r: Option<(char, usize)>)
    requires
        pos <= data.len(),
    ensures
        r matches Some((_, p)) ==> pos < p <= data.len(),
        forall|c: char|
            (pos + 4 <= data.len() && data@.subrange(pos as int, pos as int + 4) == #[trigger] enc_char(
                c,
            )) ==> r == Some((c, (pos + 4) as usize)),
{
    proof {
        lemma_auto_spec_u32_to_from_le_bytes();
    }
    if data.len() - pos < 4 {
        return None;
    }
    let bytes = slice_subrange(data.as_slice(), pos, pos + 4);
    let v = u32_from_le_bytes(bytes);
    let r: Option<(char, usize)> = match char_from_u32(v) {
        Some(c) => Some((c, pos + 4)),
        None => None,
    };
    proof {
        assert forall|c: char|
            (pos + 4 <= data.len() && data@.subrange(pos as int, pos as int + 4)
                == #[trigger] enc_char(c)) implies r == Some((c, (pos + 4) as usize)) by {
            vstd::utf8::char_is_scalar(c);
            assert(v == c as u32);
            match r {
                Some((c2, _)) => {
                    vstd::utf8::char_u32_cast(c, v);
                    vstd::utf8::char_u32_cast(c2, v);
                },
                None => {},
            }
        }
    }
    r
}

fn dec_string(data: &Vec<u8>, pos: usize) -> (r: Option<(String, usize)>)
    requires
        pos <= data.len(),
    ensures
        r matches Some((_, p)) ==> pos < p <= data.len(),
        (pos + 8 <= data.len() && data@.subrange(pos as int, pos as int + 8) == enc_u64(0)) ==> (r
            matches Some((v, p)) && p == pos + 8 && v@.len() == 0 && enc_string(&v)
            == data@.subrange(pos as int, pos as int + 8)),
{
    proof {
        lemma_auto_spec_u64_to_from_le_bytes();
    }
    let (count, p0) = match dec_u64(data, pos) {
        Some(x) => x,
        None => {
            return None;
        },
    };
    let mut s = String::new();
    let mut p = p0;
    let mut i: u64 = 0;
    while i < count
        invariant
            pos < p <= data.len(),
            count == 0 ==> (p == p0 && s@.len() == 0),
            (pos + 8 <= data.len() && data@.subrange(pos as int, pos as int + 8) == enc_u64(0))
                ==> count == 0,
        decreases count - i,
    {
        let (c, p2) = match dec_char(data, p) {
            Some(x) => x,
            None => {
                return None;
            },
        };
        push_char(&mut s, c);
        p = p2;
        i = i + 1;
    }
    proof {
        if pos + 8 <= data.len() && data@.subrange(pos as int, pos as int + 8) == enc_u64(0) {
            assert(count == 0);
            assert(enc_string(&s) =~= enc_u64(0));
        }
    }
    Some((s, p))
}

fn dec_strings(data: &Vec<u8>, pos: usize) -> (r: Option<(Vec<String>, usize)>)
    requires
        pos <= data.len(),
    ensures
        r matches Some((_, p)) ==> pos < p <= data.len(),
{
    let (count, p0) = match dec_u64(data, pos) {
        Some(x) => x,
        None => {
            return None;
        },
    };
    let mut v: Vec<String> = Vec::new();
    let mut p = p0;
    let mut i: u64 = 0;
    while i < count
        invariant
            pos < p <= data.len(),
        decreases count - i,
    {
        let (s, p2) = match dec_string(data, p) {
            Some(x) => x,
            None => {
                return None;
            },
        };
        v.push(s);
        p = p2;
        i = i + 1;
    }
    Some((v, p))
}

fn dec_span(data: &Vec<u8>, pos: usize) -> (r: Option<(Span, usize)>)
    requires
        pos <= data.len(),
    ensures
        r matches Some((_, p)) ==> pos < p <= data.len(),
        flat_span_bytes(data@, pos as int) ==> (r matches Some((sp, p)) && p == pos + 48
            && enc_span(&sp) == data@.subrange(pos as int, pos as int + 48)),
{
    proof {
        lemma_auto_spec_u64_to_from_le_bytes();
    }
    let (a, p1) = match dec_usize(data, pos) {
        Some(x) => x,
        None => {
            return None;
        },
    };
    let (b, p2) = match dec_usize(data, p1) {
        Some(x) => x,
        None => {
            return None;
        },
    };
    let (c, p3) = match dec_usize(data, p2) {
        Some(x) => x,
        None => {
            return None;
        },
    };
    let (d, p4) = match dec_usize(data, p3) {
        Some(x) => x,
        None => {
            return None;
        },
    };
    let (text, p5) = match dec_string(data, p4) {
        Some(x) => x,
        None => {
            return None;
        },
    };
    let (file, p6) = match dec_string(data, p5) {
        Some(x) => x,
        None => {
            return None;
        },
    };
    let sp = Span::new((a, b), (c, d), text, file);
    proof {
        if flat_span_bytes(data@, pos as int) {
            assert(enc_usize(a) == data@.subrange(pos as int, pos as int + 8));
            assert(enc_usize(b) == data@.subrange(pos as int + 8, pos as int + 16));
            assert(enc_usize(c) == data@.subrange(pos as int + 16, pos as int + 24));
            assert(enc_usize(d) == data@.subrange(pos as int + 24, pos as int + 32));
            assert(enc_span(&sp) =~= data@.subrange(pos as int, pos as int + 48));
        }
    }
    Some((sp, p6))
}

fn dec_vtype(data: &Vec<u8>, pos: usize) -> (r: Option<(VType, usize)>)
    requires
        pos <= data.len(),
    ensures
        r matches Some((_, p)) ==> pos < p <= data.len(),
{
    let (tag, p0) = match dec_u8(data, pos) {
        Some(x) => x,
        None => {
            return None;
        },
    };
    let (base, p1): (VTypeEnum, usize) = if tag == 0 {
        (VTypeEnum::U64, p0)
    } else if tag == 1 {
        (VTypeEnum::I8, p0)
    } else if tag == 2 {
        (VTypeEnum::Void, p0)
    } else if tag == 3 {
        let (name, p) = match dec_string(data, p0) {
            Some(x) => x,
            None => {
                return None;
            },
        };
        (VTypeEnum::Others(name), p)
    } else {
        return None;
    };
    let (star, p2) = match dec_usize(data, p1) {
        Some(x) => x,
        None => {
            return None;
        },
    };
    let (span, p3) = match dec_span(data, p2) {
        Some(x) => x,
        None => {
            return None;
        },
    };
    Some((VType { ty: base, star, span }, p3))
}

fn dec_param(data: &Vec<u8>, pos: usize) -> (r: Option<(Param, usize)>)
    requires
        pos <= data.len(),
    ensures
        r matches Some((_, p)) ==> pos < p <= data.len(),
{
    let (ty, p1) = match dec_vtype(data, pos) {
        Some(x) => x,
        None => {
            return None;
        },
    };
    let (id, p2) = match dec_string(data, p1) {
        Some(x) => x,
        None => {
            return None;
        },
    };
    let (span, p3) = match dec_span(data, p2) {
        Some(x) => x,
        None => {
            return None;
        },
    };
    Some((Param { ty, id, span }, p3))
}

fn dec_params(data: &Vec<u8>, pos: usize) -> (r: Option<(Vec<Param>, usize)>)
    requires
        pos <= data.len(),
    ensures
        r matches Some((_, p)) ==> pos < p <= data.len(),
{
    let (count, p0) = match dec_u64(data, pos) {
        Some(x) => x,
        None => {
            return None;
        },
    };
    let mut v: Vec<Param> = Vec::new();
    let mut p = p0;
    let mut i: u64 = 0;
    while i < count
        invariant
            pos < p <= data.len(),
        decreases count - i,
    {
        let (x, p2) = match dec_param(data, p) {
            Some(x) => x,
            None => {
                return None;
            },
        };
        v.push(x);
        p = p2;
        i = i + 1;
    }
    Some((v, p))
}

fn dec_member(data: &Vec<u8>, pos: usize) -> (r: Option<(ClassMember, usize)>)
    requires
        pos <= data.len(),
    ensures
        r matches Some((_, p)) ==> pos < p <= data.len(),
{
    let (ty, p1) = match dec_vtype(data, pos) {
        Some(x) => x,
        None => {
            return None;
        },
    };
    let (id, p2) = match dec_string(data, p1) {
        Some(x) => x,
        None => {
            return None;
        },
    };
    let (span, p3) = match dec_span(data, p2) {
        Some(x) => x,
        None => {
            return None;
        },
    };
    Some((ClassMember { ty, id, span }, p3))
}

fn dec_members(data: &Vec<u8>, pos: usize) -> (r: Option<(Vec<ClassMember>, usize)>)
    requires
        pos <= data.len(),
    ensures
        r matches Some((_, p)) ==> pos < p <= data.len(),
{
    let (count, p0) = match dec_u64(data, pos) {
        Some(x) => x,
        None => {
            return None;
        },
    };
    let mut v: Vec<ClassMember> = Vec::new();
    let mut p = p0;
    let mut i: u64 = 0;
    while i < count
        invariant
            pos < p <= data.len(),
        decreases count - i,
    {
        let (x, p2) = match dec_member(data, p) {
            Some(x) => x,
            None => {
                return None;
            },
        };
        v.push(x);
        p = p2;
        i = i + 1;
    }
    Some((v, p))
}

fn dec_attributes(data: &Vec<u8>, pos: usize) -> (r: Option<(Attributes, usize)>)
    requires
        pos <= data.len(),
    ensures
        r matches Some((_, p)) ==> pos < p <= data.len(),
{
    let (attrs, p1) = match dec_strings(data, pos) {
        Some(x) => x,
        None => {
            return None;
        },
    };
    let (span, p2) = match dec_span(data, p1) {
        Some(x) => x,
        None => {
            return None;
        },
    };
    Some((Attributes { attrs, span }, p2))
}

fn dec_exp(data: &Vec<u8>, pos: usize) -> (r: Option<(Exp, usize)>)
    requires
        pos <= data.len(),
    ensures
        r matches Some((_, p)) ==> pos < p <= data.len(),
    decreases data.len() - pos, 1int,
{
    let (tag, p0) = match dec_u8(data, pos) {
        Some(x) => x,
        None => {
            return None;
        },
    };
    if tag == 0 {
    let (inner, p1) = match dec_exp(data, p0) {
        Some(x) => x,
        None => {
            return None;
        },
    };
    let (span, p2) = match dec_span(data, p1) {
        Some(x) => x,
        None => {
            return None;
        },
    };
        Some((Exp::Exp(Box::new(inner), span), p2))
    } else if tag == 1 {
    let (num, p1) = match dec_u64(data, p0) {
        Some(x) => x,
        None => {
            return None;
        },
    };
    let (span, p2) = match dec_span(data, p1) {
        Some(x) => x,
        None => {
            return None;
        },
    };
        Some((Exp::Number(Number { num, span }), p2))
    } else if tag == 2 {
    let (lval, p1) = match dec_lval(data, p0) {
        Some(x) => x,
        None => {
            return None;
        },
    };
        Some((Exp::LVal(Box::new(lval)), p1))
    } else if tag == 3 {
    let (ids, p1) = match dec_strings(data, p0) {
        Some(x) => x,
        None => {
            return None;
        },
    };
    let (args, p2) = match dec_exps(data, p1) {
        Some(x) => x,
        None => {
            return None;
        },
    };
    let (span, p3) = match dec_span(data, p2) {
        Some(x) => x,
        None => {
            return None;
        },
    };
        Some((Exp::FuncCall(FuncCall { ids, args, span }), p3))
    } else if tag == 4 {
    let (text, p1) = match dec_string(data, p0) {
        Some(x) => x,
        None => {
            return None;
        },
    };
    let (span, p2) = match dec_span(data, p1) {
        Some(x) => x,
        None => {
            return None;
        },
    };
        Some((Exp::Str(text, span), p2))
    } else if tag == 5 {
        let (optag, p1) = match dec_u8(data, p0) {
            Some(x) => x,
            None => {
                return None;
            },
        };
        let op: UnaryOp = if optag == 0 {
            UnaryOp::Positive
        } else if optag == 1 {
            UnaryOp::Negative
        } else if optag == 2 {
            UnaryOp::Not
        } else {
            return None;
        };
    let (inner, p2) = match dec_exp(data, p1) {
        Some(x) => x,
        None => {
            return None;
        },
    };
    let (span, p3) = match dec_span(data, p2) {
        Some(x) => x,
        None => {
            return None;
        },
    };
        Some((Exp::Unary(op, Box::new(inner), span), p3))
    } else if tag == 6 {
    let (lhs, p1) = match dec_exp(data, p0) {
        Some(x) => x,
        None => {
            return None;
        },
    };
        let (optag, p2) = match dec_u8(data, p1) {
            Some(x) => x,
            None => {
                return None;
            },
        };
        let op: BinaryOp = if optag == 0 {
            BinaryOp::Mul
        } else if optag == 1 {
            BinaryOp::Div
        } else if optag == 2 {
            BinaryOp::Mod
        } else if optag == 3 {
            BinaryOp::Add
        } else if optag == 4 {
            BinaryOp::Sub
        } else if optag == 5 {
            BinaryOp::Lt
        } else if optag == 6 {
            BinaryOp::Gt
        } else if optag == 7 {
            BinaryOp::Le
        } else if optag == 8 {
            BinaryOp::Ge
        } else if optag == 9 {
            BinaryOp::Eq
        } else if optag == 10 {
            BinaryOp::Neq
        } else {
            return None;
        };
    let (rhs, p3) = match dec_exp(data, p2) {
        Some(x) => x,
        None => {
            return None;
        },
    };
    let (span, p4) = match dec_span(data, p3) {
        Some(x) => x,
        None => {
            return None;
        },
    };
        Some((Exp::Binary(Box::new(lhs), op, Box::new(rhs), span), p4))
    } else if tag == 7 {
    let (lval, p1) = match dec_lval(data, p0) {
        Some(x) => x,
        None => {
            return None;
        },
    };
    let (span, p2) = match dec_span(data, p1) {
        Some(x) => x,
        None => {
            return None;
        },
    };
        Some((Exp::GetAddr(Box::new(GetAddr { lval, span })), p2))
    } else if tag == 8 {
    let (d, p1) = match dec_deref(data, p0) {
        Some(x) => x,
        None => {
            return None;
        },
    };
        Some((Exp::Deref(Box::new(d)), p1))
    } else if tag == 9 {
    let (a, p1) = match dec_array(data, p0) {
        Some(x) => x,
        None => {
            return None;
        },
    };
        Some((Exp::Array(Box::new(a)), p1))
    } else {
        None
    }
}

fn dec_exps(data: &Vec<u8>, pos: usize) -> (r: Option<(Vec<Exp>, usize)>)
    requires
        pos <= data.len(),
    ensures
        r matches Some((_, p)) ==> pos < p <= data.len(),
    decreases data.len() - pos, 1int,
{
    let (count, p0) = match dec_u64(data, pos) {
        Some(x) => x,
        None => {
            return None;
        },
    };
    let mut v: Vec<Exp> = Vec::new();
    let mut p = p0;
    let mut i: u64 = 0;
    while i < count
        invariant
            pos < p <= data.len(),
        decreases count - i,
    {
        let (x, p2) = match dec_exp(data, p) {
            Some(x) => x,
            None => {
                return None;
            },
        };
        v.push(x);
        p = p2;
        i = i + 1;
    }
    Some((v, p))
}

fn dec_opt_exp(data: &Vec<u8>, pos: usize) -> (r: Option<(Option<Exp>, usize)>)
    requires
        pos <= data.len(),
    ensures
        r matches Some((_, p)) ==> pos < p <= data.len(),
    decreases data.len() - pos, 1int,
{
    let (tag, p0) = match dec_u8(data, pos) {
        Some(x) => x,
        None => {
            return None;
        },
    };
    if tag == 0 {
        Some((None, p0))
    } else if tag == 1 {
    let (e, p1) = match dec_exp(data, p0) {
        Some(x) => x,
        None => {
            return None;
        },
    };
        Some((Some(e), p1))
    } else {
        None
    }
}

fn dec_lval(data: &Vec<u8>, pos: usize) -> (r: Option<(LVal, usize)>)
    requires
        pos <= data.len(),
    ensures
        r matches Some((_, p)) ==> pos < p <= data.len(),
    decreases data.len() - pos, 1int,
{
    let (ids, p1) = match dec_strings(data, pos) {
        Some(x) => x,
        None => {
            return None;
        },
    };
    let (span, p2) = match dec_span(data, p1) {
        Some(x) => x,
        None => {
            return None;
        },
    };
    let (exp, p3) = match dec_opt_exp(data, p2) {
        Some(x) => x,
        None => {
            return None;
        },
    };
    Some((LVal { ids, span, exp }, p3))
}

fn dec_deref(data: &Vec<u8>, pos: usize) -> (r: Option<(Deref, usize)>)
    requires
        pos <= data.len(),
    ensures
        r matches Some((_, p)) ==> pos < p <= data.len(),
    decreases data.len() - pos, 1int,
{
    let (tag, p0) = match dec_u8(data, pos) {
        Some(x) => x,
        None => {
            return None;
        },
    };
    if tag == 0 {
    let (l, p1) = match dec_lval(data, p0) {
        Some(x) => x,
        None => {
            return None;
        },
    };
    let (span, p2) = match dec_span(data, p1) {
        Some(x) => x,
        None => {
            return None;
        },
    };
        Some((Deref::DerefId(l, span), p2))
    } else if tag == 1 {
    let (e, p1) = match dec_exp(data, p0) {
        Some(x) => x,
        None => {
            return None;
        },
    };
    let (span, p2) = match dec_span(data, p1) {
        Some(x) => x,
        None => {
            return None;
        },
    };
        Some((Deref::DerefExp(e, span), p2))
    } else if tag == 2 {
    let (e, p1) = match dec_exp(data, p0) {
        Some(x) => x,
        None => {
            return None;
        },
    };
    let (off, p2) = match dec_exp(data, p1) {
        Some(x) => x,
        None => {
            return None;
        },
    };
    let (span, p3) = match dec_span(data, p2) {
        Some(x) => x,
        None => {
            return None;
        },
    };
        Some((Deref::DerefPtrExp(e, off, span), p3))
    } else if tag == 3 {
    let (l, p1) = match dec_lval(data, p0) {
        Some(x) => x,
        None => {
            return None;
        },
    };
    let (off, p2) = match dec_exp(data, p1) {
        Some(x) => x,
        None => {
            return None;
        },
    };
    let (span, p3) = match dec_span(data, p2) {
        Some(x) => x,
        None => {
            return None;
        },
    };
        Some((Deref::DerefPtr(l, off, span), p3))
    } else {
        None
    }
}

fn dec_array(data: &Vec<u8>, pos: usize) -> (r: Option<(Array, usize)>)
    requires
        pos <= data.len(),
    ensures
        r matches Some((_, p)) ==> pos < p <= data.len(),
    decreases data.len() - pos, 1int,
{
    let (tag, p0) = match dec_u8(data, pos) {
        Some(x) => x,
        None => {
            return None;
        },
    };
    if tag == 0 {
    let (items, p1) = match dec_exps(data, p0) {
        Some(x) => x,
        None => {
            return None;
        },
    };
    let (span, p2) = match dec_span(data, p1) {
        Some(x) => x,
        None => {
            return None;
        },
    };
        Some((Array::List(items, span), p2))
    } else if tag == 1 {
    let (value, p1) = match dec_exp(data, p0) {
        Some(x) => x,
        None => {
            return None;
        },
    };
    let (count, p2) = match dec_exp(data, p1) {
        Some(x) => x,
        None => {
            return None;
        },
    };
    let (span, p3) = match dec_span(data, p2) {
        Some(x) => x,
        None => {
            return None;
        },
    };
        Some((Array::Template(value, ConstExp { exp: count }, span), p3))
    } else {
        None
    }
}

fn dec_constraint(data: &Vec<u8>, pos: usize) -> (r: Option<(AsmConstraint, usize)>)
    requires
        pos <= data.len(),
    ensures
        r matches Some((_, p)) ==> pos < p <= data.len(),
    decreases data.len() - pos, 1int,
{
    let (tag, p0) = match dec_u8(data, pos) {
        Some(x) => x,
        None => {
            return None;
        },
    };
    if tag == 0 {
    let (id, p1) = match dec_string(data, p0) {
        Some(x) => x,
        None => {
            return None;
        },
    };
    let (e, p2) = match dec_exp(data, p1) {
        Some(x) => x,
        None => {
            return None;
        },
    };
    let (span, p3) = match dec_span(data, p2) {
        Some(x) => x,
        None => {
            return None;
        },
    };
        Some((AsmConstraint::In(id, e, span), p3))
    } else if tag == 1 {
    let (id, p1) = match dec_string(data, p0) {
        Some(x) => x,
        None => {
            return None;
        },
    };
    let (l, p2) = match dec_lval(data, p1) {
        Some(x) => x,
        None => {
            return None;
        },
    };
    let (span, p3) = match dec_span(data, p2) {
        Some(x) => x,
        None => {
            return None;
        },
    };
        Some((AsmConstraint::Out(id, l, span), p3))
    } else {
        None
    }
}

fn dec_constraints(data: &Vec<u8>, pos: usize) -> (r: Option<(Vec<AsmConstraint>, usize)>)
    requires
        pos <= data.len(),
    ensures
        r matches Some((_, p)) ==> pos < p <= data.len(),
    decreases data.len() - pos, 1int,
{
    let (count, p0) = match dec_u64(data, pos) {
        Some(x) => x,
        None => {
            return None;
        },
    };
    let mut v: Vec<AsmConstraint> = Vec::new();
    let mut p = p0;
    let mut i: u64 = 0;
    while i < count
        invariant
            pos < p <= data.len(),
        decreases count - i,
    {
        let (x, p2) = match dec_constraint(data, p) {
            Some(x) => x,
            None => {
                return None;
            },
        };
        v.push(x);
        p = p2;
        i = i + 1;
    }
    Some((v, p))
}

fn dec_inline_asm(data: &Vec<u8>, pos: usize) -> (r: Option<(InlineAsm, usize)>)
    requires
        pos <= data.len(),
    ensures
        r matches Some((_, p)) ==> pos < p <= data.len(),
    decreases data.len() - pos, 1int,
{
    let (code, p1) = match dec_string(data, pos) {
        Some(x) => x,
        None => {
            return None;
        },
    };
    let (constraints, p2) = match dec_constraints(data, p1) {
        Some(x) => x,
        None => {
            return None;
        },
    };
    let (span, p3) = match dec_span(data, p2) {
        Some(x) => x,
        None => {
            return None;
        },
    };
    Some((InlineAsm { code, constraints, span }, p3))
}

fn dec_block(data: &Vec<u8>, pos: usize) -> (r: Option<(Block, usize)>)
    requires
        pos <= data.len(),
    ensures
        r matches Some((_, p)) ==> pos < p <= data.len(),
    decreases data.len() - pos, 1int,
{
    let (items, p1) = match dec_block_items(data, pos) {
        Some(x) => x,
        None => {
            return None;
        },
    };
    let (span, p2) = match dec_span(data, p1) {
        Some(x) => x,
        None => {
            return None;
        },
    };
    Some((Block { items, span }, p2))
}

fn dec_block_items(data: &Vec<u8>, pos: usize) -> (r: Option<(Vec<BlockItem>, usize)>)
    requires
        pos <= data.len(),
    ensures
        r matches Some((_, p)) ==> pos < p <= data.len(),
    decreases data.len() - pos, 0int,
{
    let (count, p0) = match dec_u64(data, pos) {
        Some(x) => x,
        None => {
            return None;
        },
    };
    let mut v: Vec<BlockItem> = Vec::new();
    let mut p = p0;
    let mut i: u64 = 0;
    while i < count
        invariant
            pos < p <= data.len(),
        decreases count - i,
    {
        let (x, p2) = match dec_block_item(data, p) {
            Some(x) => x,
            None => {
                return None;
            },
        };
        v.push(x);
        p = p2;
        i = i + 1;
    }
    Some((v, p))
}

fn dec_block_item(data: &Vec<u8>, pos: usize) -> (r: Option<(BlockItem, usize)>)
    requires
        pos <= data.len(),
    ensures
        r matches Some((_, p)) ==> pos < p <= data.len(),
    decreases data.len() - pos, 1int,
{
    let (tag, p0) = match dec_u8(data, pos) {
        Some(x) => x,
        None => {
            return None;
        },
    };
    if tag == 0 {
    let (d, p1) = match dec_decl(data, p0) {
        Some(x) => x,
        None => {
            return None;
        },
    };
        Some((BlockItem::Decl(d), p1))
    } else if tag == 1 {
    let (st, p1) = match dec_stmt(data, p0) {
        Some(x) => x,
        None => {
            return None;
        },
    };
        Some((BlockItem::Stmt(st), p1))
    } else {
        None
    }
}

fn dec_stmt(data: &Vec<u8>, pos: usize) -> (r: Option<(Stmt, usize)>)
    requires
        pos <= data.len(),
    ensures
        r matches Some((_, p)) ==> pos < p <= data.len(),
    decreases data.len() - pos, 1int,
{
    let (tag, p0) = match dec_u8(data, pos) {
        Some(x) => x,
        None => {
            return None;
        },
    };
    if tag == 0 {
    let (a, p1) = match dec_assign(data, p0) {
        Some(x) => x,
        None => {
            return None;
        },
    };
        Some((Stmt::Assign(a), p1))
    } else if tag == 1 {
    let (exp, p1) = match dec_exp(data, p0) {
        Some(x) => x,
        None => {
            return None;
        },
    };
    let (span, p2) = match dec_span(data, p1) {
        Some(x) => x,
        None => {
            return None;
        },
    };
        Some((Stmt::Return(Return { exp, span }), p2))
    } else if tag == 2 {
    let (b, p1) = match dec_block(data, p0) {
        Some(x) => x,
        None => {
            return None;
        },
    };
        Some((Stmt::Block(b), p1))
    } else if tag == 3 {
    let (e, p1) = match dec_opt_exp(data, p0) {
        Some(x) => x,
        None => {
            return None;
        },
    };
        Some((Stmt::Exp(e), p1))
    } else if tag == 4 {
    let (cond, p1) = match dec_exp(data, p0) {
        Some(x) => x,
        None => {
            return None;
        },
    };
    let (body, p2) = match dec_block(data, p1) {
        Some(x) => x,
        None => {
            return None;
        },
    };
        let (btag, p3) = match dec_u8(data, p2) {
            Some(x) => x,
            None => {
                return None;
            },
        };
        let (else_body, p4): (Option<Block>, usize) = if btag == 0 {
            (None, p3)
        } else if btag == 1 {
            let (b, p) = match dec_block(data, p3) {
                Some(x) => x,
                None => {
                    return None;
                },
            };
            (Some(b), p)
        } else {
            return None;
        };
    let (span, p5) = match dec_span(data, p4) {
        Some(x) => x,
        None => {
            return None;
        },
    };
        Some((Stmt::If(If { cond, body, else_body, span }), p5))
    } else if tag == 5 {
    let (a, p1) = match dec_inline_asm(data, p0) {
        Some(x) => x,
        None => {
            return None;
        },
    };
        Some((Stmt::InlineAsm(a), p1))
    } else if tag == 6 {
    let (cond, p1) = match dec_exp(data, p0) {
        Some(x) => x,
        None => {
            return None;
        },
    };
    let (body, p2) = match dec_block(data, p1) {
        Some(x) => x,
        None => {
            return None;
        },
    };
    let (span, p3) = match dec_span(data, p2) {
        Some(x) => x,
        None => {
            return None;
        },
    };
        Some((Stmt::While(While { cond, body, span }), p3))
    } else if tag == 7 {
        let (ttag, p1) = match dec_u8(data, p0) {
            Some(x) => x,
            None => {
                return None;
            },
        };
    let (span, p2) = match dec_span(data, p1) {
        Some(x) => x,
        None => {
            return None;
        },
    };
        if ttag == 0 {
            Some((Stmt::Terminator(Terminator::Break(span)), p2))
        } else if ttag == 1 {
            Some((Stmt::Terminator(Terminator::Continue(span)), p2))
        } else {
            None
        }
    } else if tag == 8 {
    let (var, p1) = match dec_string(data, p0) {
        Some(x) => x,
        None => {
            return None;
        },
    };
    let (start, p2) = match dec_exp(data, p1) {
        Some(x) => x,
        None => {
            return None;
        },
    };
    let (end, p3) = match dec_exp(data, p2) {
        Some(x) => x,
        None => {
            return None;
        },
    };
    let (stp, p4) = match dec_exp(data, p3) {
        Some(x) => x,
        None => {
            return None;
        },
    };
    let (body, p5) = match dec_block(data, p4) {
        Some(x) => x,
        None => {
            return None;
        },
    };
    let (span, p6) = match dec_span(data, p5) {
        Some(x) => x,
        None => {
            return None;
        },
    };
        Some((Stmt::For(For { var, start, end, step: stp, body, span }), p6))
    } else {
        None
    }
}

fn dec_assign(data: &Vec<u8>, pos: usize) -> (r: Option<(Assign, usize)>)
    requires
        pos <= data.len(),
    ensures
        r matches Some((_, p)) ==> pos < p <= data.len(),
    decreases data.len() - pos, 1int,
{
    let (tag, p0) = match dec_u8(data, pos) {
        Some(x) => x,
        None => {
            return None;
        },
    };
    if tag == 0 {
    let (l, p1) = match dec_lval(data, p0) {
        Some(x) => x,
        None => {
            return None;
        },
    };
    let (e, p2) = match dec_exp(data, p1) {
        Some(x) => x,
        None => {
            return None;
        },
    };
    let (span, p3) = match dec_span(data, p2) {
        Some(x) => x,
        None => {
            return None;
        },
    };
        Some((Assign::WriteVar(l, e, span), p3))
    } else if tag == 1 {
    let (d, p1) = match dec_deref(data, p0) {
        Some(x) => x,
        None => {
            return None;
        },
    };
    let (e, p2) = match dec_exp(data, p1) {
        Some(x) => x,
        None => {
            return None;
        },
    };
    let (span, p3) = match dec_span(data, p2) {
        Some(x) => x,
        None => {
            return None;
        },
    };
        Some((Assign::WritePtr(d, e, span), p3))
    } else {
        None
    }
}

fn dec_decl(data: &Vec<u8>, pos: usize) -> (r: Option<(Decl, usize)>)
    requires
        pos <= data.len(),
    ensures
        r matches Some((_, p)) ==> pos < p <= data.len(),
    decreases data.len() - pos, 1int,
{
    let (tag, p0) = match dec_u8(data, pos) {
        Some(x) => x,
        None => {
            return None;
        },
    };
    if tag == 0 {
    let (c, p1) = match dec_const_decl(data, p0) {
        Some(x) => x,
        None => {
            return None;
        },
    };
        Some((Decl::Const(c), p1))
    } else if tag == 1 {
    let (id, p1) = match dec_string(data, p0) {
        Some(x) => x,
        None => {
            return None;
        },
    };
    let (ty, p2) = match dec_vtype(data, p1) {
        Some(x) => x,
        None => {
            return None;
        },
    };
    let (exp, p3) = match dec_exp(data, p2) {
        Some(x) => x,
        None => {
            return None;
        },
    };
    let (span, p4) = match dec_span(data, p3) {
        Some(x) => x,
        None => {
            return None;
        },
    };
        Some((Decl::Var(VarDecl { id, ty, init: InitVal { exp }, span }), p4))
    } else {
        None
    }
}

fn dec_const_decl(data: &Vec<u8>, pos: usize) -> (r: Option<(ConstDecl, usize)>)
    requires
        pos <= data.len(),
    ensures
        r matches Some((_, p)) ==> pos < p <= data.len(),
    decreases data.len() - pos, 1int,
{
    let (atag, p0) = match dec_u8(data, pos) {
        Some(x) => x,
        None => {
            return None;
        },
    };
    let (attr, p1): (Option<Attributes>, usize) = if atag == 0 {
        (None, p0)
    } else if atag == 1 {
        let (a, p) = match dec_attributes(data, p0) {
            Some(x) => x,
            None => {
                return None;
            },
        };
        (Some(a), p)
    } else {
        return None;
    };
    let (id, p2) = match dec_string(data, p1) {
        Some(x) => x,
        None => {
            return None;
        },
    };
    let (init, p3) = match dec_const_init(data, p2) {
        Some(x) => x,
        None => {
            return None;
        },
    };
    let (span, p4) = match dec_span(data, p3) {
        Some(x) => x,
        None => {
            return None;
        },
    };
    Some((ConstDecl { attr, id, init, span }, p4))
}

fn dec_const_init(data: &Vec<u8>, pos: usize) -> (r: Option<(ConstInitVal, usize)>)
    requires
        pos <= data.len(),
    ensures
        r matches Some((_, p)) ==> pos < p <= data.len(),
    decreases data.len() - pos, 1int,
{
    let (tag, p0) = match dec_u8(data, pos) {
        Some(x) => x,
        None => {
            return None;
        },
    };
    if tag == 0 {
    let (exp, p1) = match dec_exp(data, p0) {
        Some(x) => x,
        None => {
            return None;
        },
    };
        Some((ConstInitVal::Exp(ConstExp { exp }), p1))
    } else if tag == 1 {
    let (f, p1) = match dec_func_def(data, p0) {
        Some(x) => x,
        None => {
            return None;
        },
    };
        Some((ConstInitVal::Function(f), p1))
    } else if tag == 2 {
    let (func_type, p1) = match dec_vtype(data, p0) {
        Some(x) => x,
        None => {
            return None;
        },
    };
    let (params, p2) = match dec_params(data, p1) {
        Some(x) => x,
        None => {
            return None;
        },
    };
    let (span, p3) = match dec_span(data, p2) {
        Some(x) => x,
        None => {
            return None;
        },
    };
        Some((ConstInitVal::Proto(ProtoDef { func_type, params, span }), p3))
    } else if tag == 3 {
    let (c, p1) = match dec_class(data, p0) {
        Some(x) => x,
        None => {
            return None;
        },
    };
        Some((ConstInitVal::Class(c), p1))
    } else {
        None
    }
}

fn dec_func_def(data: &Vec<u8>, pos: usize) -> (r: Option<(FuncDef, usize)>)
    requires
        pos <= data.len(),
    ensures
        r matches Some((_, p)) ==> pos < p <= data.len(),
    decreases data.len() - pos, 1int,
{
    let (func_type, p1) = match dec_vtype(data, pos) {
        Some(x) => x,
        None => {
            return None;
        },
    };
    let (block, p2) = match dec_block(data, p1) {
        Some(x) => x,
        None => {
            return None;
        },
    };
    let (params, p3) = match dec_params(data, p2) {
        Some(x) => x,
        None => {
            return None;
        },
    };
    let (span, p4) = match dec_span(data, p3) {
        Some(x) => x,
        None => {
            return None;
        },
    };
    Some((FuncDef { func_type, block, params, span }, p4))
}

fn dec_class(data: &Vec<u8>, pos: usize) -> (r: Option<(ClassDef, usize)>)
    requires
        pos <= data.len(),
    ensures
        r matches Some((_, p)) ==> pos < p <= data.len(),
    decreases data.len() - pos, 1int,
{
    let (members, p1) = match dec_members(data, pos) {
        Some(x) => x,
        None => {
            return None;
        },
    };
    let (consts, p2) = match dec_const_decls(data, p1) {
        Some(x) => x,
        None => {
            return None;
        },
    };
    let (span, p3) = match dec_span(data, p2) {
        Some(x) => x,
        None => {
            return None;
        },
    };
    Some((ClassDef { members, consts, span }, p3))
}

fn dec_const_decls(data: &Vec<u8>, pos: usize) -> (r: Option<(Vec<ConstDecl>, usize)>)
    requires
        pos <= data.len(),
    ensures
        r matches Some((_, p)) ==> pos < p <= data.len(),
    decreases data.len() - pos, 1int,
{
    let (count, p0) = match dec_u64(data, pos) {
        Some(x) => x,
        None => {
            return None;
        },
    };
    let mut v: Vec<ConstDecl> = Vec::new();
    let mut p = p0;
    let mut i: u64 = 0;
    while i < count
        invariant
            pos < p <= data.len(),
        decreases count - i,
    {
        let (x, p2) = match dec_const_decl(data, p) {
            Some(x) => x,
            None => {
                return None;
            },
        };
        v.push(x);
        p = p2;
        i = i + 1;
    }
    Some((v, p))
}

fn dec_global_item(data: &Vec<u8>, pos: usize) -> (r: Option<(GlobalItem, usize)>)
    requires
        pos <= data.len(),
    ensures
        r matches Some((_, p)) ==> pos < p <= data.len(),
    decreases data.len() - pos, 1int,
{
    let (tag, p0) = match dec_u8(data, pos) {
        Some(x) => x,
        None => {
            return None;
        },
    };
    if tag == 0 {
    let (d, p1) = match dec_const_decl(data, p0) {
        Some(x) => x,
        None => {
            return None;
        },
    };
        Some((GlobalItem::ConstDecl(d), p1))
    } else if tag == 1 {
        let (ftag, p1) = match dec_u8(data, p0) {
            Some(x) => x,
            None => {
                return None;
            },
        };
        let func: BuiltinFunction = if ftag == 0 {
            BuiltinFunction::Import
        } else if ftag == 1 {
            BuiltinFunction::Module
        } else if ftag == 2 {
            BuiltinFunction::DoMagic
        } else if ftag == 3 {
            BuiltinFunction::FirstModule
        } else {
            return None;
        };
    let (args, p2) = match dec_exps(data, p1) {
        Some(x) => x,
        None => {
            return None;
        },
    };
    let (span, p3) = match dec_span(data, p2) {
        Some(x) => x,
        None => {
            return None;
        },
    };
        Some((GlobalItem::BuiltinFnCall(BuiltinFunctionCall { func, args, span }), p3))
    } else if tag == 2 {
    let (a, p1) = match dec_inline_asm(data, p0) {
        Some(x) => x,
        None => {
            return None;
        },
    };
        Some((GlobalItem::InlineAsm(a), p1))
    } else {
        None
    }
}

fn dec_global_items(data: &Vec<u8>, pos: usize) -> (r: Option<(Vec<GlobalItem>, usize)>)
    requires
        pos <= data.len(),
    ensures
        r matches Some((_, p)) ==> pos < p <= data.len(),
        (pos + 8 <= data.len() && data@.subrange(pos as int, pos as int + 8) == enc_u64(0)) ==> (r
            matches Some((v, p)) && p == pos + 8 && v@.len() == 0 && enc_global_items(v@)
            == data@.subrange(pos as int, pos as int + 8)),
    decreases data.len() - pos, 1int,
{
    proof {
        lemma_auto_spec_u64_to_from_le_bytes();
    }
    let (count, p0) = match dec_u64(data, pos) {
        Some(x) => x,
        None => {
            return None;
        },
    };
    let mut v: Vec<GlobalItem> = Vec::new();
    let mut p = p0;
    let mut i: u64 = 0;
    while i < count
        invariant
            pos < p <= data.len(),
            count == 0 ==> (p == p0 && v@.len() == 0),
            (pos + 8 <= data.len() && data@.subrange(pos as int, pos as int + 8) == enc_u64(0))
                ==> count == 0,
        decreases count - i,
    {
        let (x, p2) = match dec_global_item(data, p) {
            Some(x) => x,
            None => {
                return None;
            },
        };
        v.push(x);
        p = p2;
        i = i + 1;
    }
    proof {
        if pos + 8 <= data.len() && data@.subrange(pos as int, pos as int + 8) == enc_u64(0) {
            assert(enc_global_items(v@) =~= enc_u64(0));
        }
    }
    Some((v, p))
}

fn dec_unit(data: &Vec<u8>, pos: usize) -> (r: Option<(CompUnit, usize)>)
    requires
        pos <= data.len(),
    ensures
        r matches Some((_, p)) ==> pos < p <= data.len(),
        flat_unit_bytes(data@, pos as int) ==> (r matches Some((u, p)) && p == pos + 56
            && enc_unit(&u) == data@.subrange(pos as int, pos as int + 56)),
    decreases data.len() - pos, 1int,
{
    let (global_items, p1) = match dec_global_items(data, pos) {
        Some(x) => x,
        None => {
            return None;
        },
    };
    let (span, p2) = match dec_span(data, p1) {
        Some(x) => x,
        None => {
            return None;
        },
    };
    let u = CompUnit { global_items, span };
    proof {
        if flat_unit_bytes(data@, pos as int) {
            assert(enc_unit(&u) =~= data@.subrange(pos as int, pos as int + 56));
        }
    }
    Some((u, p2))
}

/// True exactly when the two byte strings hold the same bytes.
fn bytes_eq(a: &Vec<u8>, b: &Vec<u8>) -> (r: bool)
    ensures
        r == (a@ == b@),
{
    if a.len() != b.len() {
        assert(a@ != b@);
        return false;
    }
    let mut i: usize = 0;
    while i < a.len()
        invariant
            0 <= i <= a.len(),
            a.len() == b.len(),
            forall|j: int| 0 <= j < i ==> a@[j] == b@[j],
        decreases a.len() - i,
    {
        if a[i] != b[i] {
            assert(a@ != b@);
            return false;
        }
        i = i + 1;
    }
    proof {
        assert(a@ =~= b@);
    }
    true
}

/// A unit with no items whose span texts are empty: the simplest trees,
/// on whose encodings `deserialize` owes success.
pub open spec fn flat_unit(u: &CompUnit) -> bool {
    u.global_items@.len() == 0 && u.span.string@.len() == 0 && u.span.file@.len() == 0
}

/// Deserializes the binary interchange form back into a compilation unit.
/// A byte string is accepted only when it is, byte for byte, the encoding
/// of the returned tree: whatever `deserialize` accepts, re-serializing
/// the result reproduces the input exactly, so no accepted round trip can
/// lose or alter a field or a span. Success is owed at least on the
/// encodings of flat units.
pub fn deserialize(data: Vec<u8>) -> (r: Option<CompUnit>)
    ensures
        r matches Some(u) ==> enc_unit(&u) == data@,
        forall|u: CompUnit| (flat_unit(&u) && data@ == #[trigger] enc_unit(&u)) ==> r is Some,
{
    let n = data.len();
    match dec_unit(&data, 0) {
        Some((u, p)) => {
            if p == n {
                let bytes = serialize(&u);
                if bytes_eq(&bytes, &data) {
                    Some(u)
                } else {
                    proof {
                        assert forall|u2: CompUnit|
                            flat_unit(&u2) && data@ == #[trigger] enc_unit(&u2) implies false by {
                            lemma_flat_unit_bytes(&u2, data@);
                            assert(data@.subrange(0, 56) =~= data@);
                        };
                    }
                    None
                }
            } else {
                proof {
                    assert forall|u2: CompUnit|
                        flat_unit(&u2) && data@ == #[trigger] enc_unit(&u2) implies false by {
                        lemma_flat_unit_bytes(&u2, data@);
                    };
                }
                None
            }
        },
        None => {
            proof {
                assert forall|u2: CompUnit|
                    flat_unit(&u2) && data@ == #[trigger] enc_unit(&u2) implies false by {
                    lemma_flat_unit_bytes(&u2, data@);
                };
            }
            None
        },
    }
}

} // verus!
