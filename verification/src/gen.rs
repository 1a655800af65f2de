//! Lowering the syntax tree to hardware-module text.
//!
//! One function-valued constant declaration becomes one module: an input
//! port per parameter in declaration order, one trailing `out` port of the
//! return type's width, and a single continuous assignment lowered from
//! the body's one `return` statement. Everything outside that subset is
//! rejected with a structured error, and no output is valid once any item
//! fails.
//!
//! The generator threads an explicit per-run context (`GenCtx`) instead of
//! process-wide state: it accumulates the output text and the run's single
//! top-module designation, which is set at most once and never silently
//! overwritten.

use vstd::prelude::*;

use crate::defs::{ConstDecl, ConstInitVal, Decl, FuncDef, Param};
use crate::error::{Error, ErrorKind};
use crate::expr::{deref_span, exp_span, BinaryOp, Exp, LVal, Number, UnaryOp};
use crate::program::{Block, BlockItem, CompUnit, GlobalItem};
use crate::span::Span;
use crate::stmt::{terminator_span, Return, Stmt};
use crate::text::{dec_chars, push_char, str_eq, u64_to_string};
use crate::types::{VType, VTypeEnum};

verus! {

/// Per-run generator state: the output text accumulated so far, and the
/// top-module registry, holding the name and the attribute location of
/// the declaration marked as the run's top module, once one was seen.
pub struct GenCtx {
    pub code: String,
    pub top_module: Option<(String, Span)>,
}

impl GenCtx {
    /// A fresh context: no output, no top module yet.
    pub fn new() -> (ctx: Self)
        ensures
            ctx.code@ == Seq::<char>::empty(),
            ctx.top_module is None,
    {
        GenCtx { code: String::new(), top_module: None }
    }
}

/// The outcome of lowering some part of the tree, as the contracts state
/// it: either the exact text appended and the top-module registry left
/// behind, or the error's kind and locations.
pub enum GenStep {
    Done(Seq<char>, Option<(String, Span)>),
    Failed(ErrorKind, Option<Span>, Option<Span>),
}

// ---------------------------------------------------------------------------
// Widths and types
// ---------------------------------------------------------------------------
/// Port width in bits of a base type kind; total over the three built-in
/// kinds.
pub open spec fn width_of(t: VTypeEnum) -> nat {
    match t {
        VTypeEnum::U64 => 64,
        VTypeEnum::I8 => 8,
        VTypeEnum::Void => 0,
        VTypeEnum::Others(_) => 0,
    }
}

/// Whether a type reaches the width computation at all: only the built-in
/// base kinds at pointer depth zero have a width.
pub open spec fn vtype_err(t: &VType) -> Option<(ErrorKind, Option<Span>)> {
    if t.star != 0 {
        Some((ErrorKind::PointerWidthUnsupported, Some(t.span)))
    } else if t.ty matches VTypeEnum::Others(_) {
        Some((ErrorKind::UnsupportedNode, Some(t.span)))
    } else {
        None
    }
}

/// The text of a width-`w` port range: `[w-1:0]`. A zero-width (void)
/// port is emitted as `[-1:0]` without further validation; a latent
/// oddity of the output format that is kept as-is rather than silently
/// corrected.
pub open spec fn width_chars(w: nat) -> Seq<char> {
    if w == 0 {
        seq!['-', '1']
    } else {
        dec_chars((w - 1) as nat)
    }
}

/// The emitted text of a lowerable type.
pub open spec fn vtype_text(t: &VType) -> Seq<char> {
    seq!['['] + width_chars(width_of(t.ty)) + seq![':', '0', ']']
}

// ---------------------------------------------------------------------------
// Expressions
// ---------------------------------------------------------------------------
/// The operator spelling of a unary operator: plus is a no-op, minus a
/// unary minus, logical not a bitwise complement.
pub open spec fn unary_chars(op: UnaryOp) -> Seq<char> {
    match op {
        UnaryOp::Positive => seq![],
        UnaryOp::Negative => seq!['-'],
        UnaryOp::Not => seq!['~'],
    }
}

/// The operator spelling of a binary operator.
pub open spec fn binop_chars(op: BinaryOp) -> Seq<char> {
    match op {
        BinaryOp::Eq => seq!['=', '='],
        BinaryOp::Neq => seq!['!', '='],
        BinaryOp::Add => seq!['+'],
        BinaryOp::Sub => seq!['-'],
        BinaryOp::Mul => seq!['*'],
        BinaryOp::Div => seq!['/'],
        BinaryOp::Ge => seq!['>', '='],
        BinaryOp::Le => seq!['<', '='],
        BinaryOp::Gt => seq!['>'],
        BinaryOp::Lt => seq!['<'],
        BinaryOp::Mod => seq!['%'],
    }
}

/// A dotted identifier path, segments joined by `.`.
pub open spec fn join_ids(ids: Seq<String>) -> Seq<char>
    decreases ids.len(),
{
    if ids.len() == 0 {
        seq![]
    } else if ids.len() == 1 {
        ids[0]@
    } else {
        join_ids(ids.drop_last()) + seq!['.'] + ids.last()@
    }
}

/// The first failure inside an expression, walking it in emission order;
/// `None` exactly when the whole expression lowers.
pub open spec fn exp_err(e: &Exp) -> Option<(ErrorKind, Option<Span>)>
    decreases e,
{
    match e {
        Exp::Unary(_, inner, _) => exp_err(inner),
        Exp::Exp(inner, _) => exp_err(inner),
        Exp::Number(_) => None,
        Exp::LVal(_) => None,
        Exp::Binary(lhs, _, rhs, _) => if exp_err(lhs) is Some {
            exp_err(lhs)
        } else {
            exp_err(rhs)
        },
        _ => Some((ErrorKind::UnsupportedNode, Some(exp_span(e)))),
    }
}

/// The emitted text of a lowerable expression. Parentheses are dropped;
/// a unary plus disappears; binary operands are separated from their
/// operator by single blanks.
pub open spec fn exp_chars(e: &Exp) -> Seq<char>
    decreases e,
{
    match e {
        Exp::Unary(op, inner, _) => unary_chars(*op) + exp_chars(inner),
        Exp::Exp(inner, _) => exp_chars(inner),
        Exp::Number(n) => dec_chars(n.num as nat),
        Exp::LVal(lval) => join_ids(lval.ids@),
        Exp::Binary(lhs, op, rhs, _) => exp_chars(lhs) + seq![' '] + binop_chars(*op) + seq![' ']
            + exp_chars(rhs),
        _ => seq![],
    }
}

// ---------------------------------------------------------------------------
// Statements, blocks, functions, declarations
// ---------------------------------------------------------------------------
/// Where a statement sits, when it carries a location at all.
pub open spec fn stmt_span(s: &Stmt) -> Option<Span> {
    match s {
        Stmt::Assign(a) => match a {
            crate::stmt::Assign::WriteVar(_, _, span) => Some(*span),
            crate::stmt::Assign::WritePtr(_, _, span) => Some(*span),
        },
        Stmt::Return(r) => Some(r.span),
        Stmt::Block(b) => Some(b.span),
        Stmt::Exp(e) => match e {
            Some(exp) => Some(exp_span(exp)),
            None => None,
        },
        Stmt::If(i) => Some(i.span),
        Stmt::InlineAsm(a) => Some(a.span),
        Stmt::While(w) => Some(w.span),
        Stmt::Terminator(t) => Some(terminator_span(t)),
        Stmt::For(f) => Some(f.span),
    }
}

/// Where a block item sits.
pub open spec fn block_item_span(item: &BlockItem) -> Option<Span> {
    match item {
        BlockItem::Decl(d) => match d {
            Decl::Const(c) => Some(c.span),
            Decl::Var(v) => Some(v.span),
        },
        BlockItem::Stmt(s) => stmt_span(s),
    }
}

/// The text a `return` statement lowers to: one continuous assignment.
pub open spec fn return_chars(r: &Return) -> Seq<char> {
    seq!['a', 's', 's', 'i', 'g', 'n', ' ', 'o', 'u', 't', ' ', '=', ' '] + exp_chars(&r.exp)
        + seq![';', '\n']
}

/// The first failure inside a function body. The body must consist of
/// exactly one `return` statement; anything else is unsupported.
pub open spec fn block_err(b: &Block) -> Option<(ErrorKind, Option<Span>)> {
    if b.items.len() == 0 {
        Some((ErrorKind::UnsupportedNode, Some(b.span)))
    } else {
        match b.items[0] {
            BlockItem::Stmt(Stmt::Return(r)) => if exp_err(&r.exp) is Some {
                exp_err(&r.exp)
            } else if b.items.len() > 1 {
                Some((ErrorKind::UnsupportedNode, block_item_span(&b.items[1])))
            } else {
                None
            },
            _ => Some((ErrorKind::UnsupportedNode, block_item_span(&b.items[0]))),
        }
    }
}

/// The text of a lowerable body: the single assignment.
pub open spec fn block_chars(b: &Block) -> Seq<char> {
    match b.items[0] {
        BlockItem::Stmt(Stmt::Return(r)) => return_chars(&r),
        _ => seq![],
    }
}

/// One input port: `input [w-1:0] name, `.
pub open spec fn param_chars(p: &Param) -> Seq<char> {
    seq!['i', 'n', 'p', 'u', 't', ' '] + vtype_text(&p.ty) + seq![' '] + p.id@ + seq![',', ' ']
}

/// All input ports up to (excluding) nothing: the ports of `ps`, in
/// declaration order.
pub open spec fn params_chars(ps: Seq<Param>) -> Seq<char>
    decreases ps.len(),
{
    if ps.len() == 0 {
        seq![]
    } else {
        params_chars(ps.drop_last()) + param_chars(&ps.last())
    }
}

/// The first parameter failure at or after position `i`: parameters are
/// checked in declaration order.
pub open spec fn params_err_from(ps: Seq<Param>, i: int) -> Option<(ErrorKind, Option<Span>)>
    decreases ps.len() - i,
{
    if i < 0 || i >= ps.len() {
        None
    } else if vtype_err(&ps[i].ty) is Some {
        vtype_err(&ps[i].ty)
    } else {
        params_err_from(ps, i + 1)
    }
}

/// The first failure inside a function definition: parameters in order,
/// then the return type, then the body.
pub open spec fn func_err(f: &FuncDef) -> Option<(ErrorKind, Option<Span>)> {
    if params_err_from(f.params@, 0) is Some {
        params_err_from(f.params@, 0)
    } else if vtype_err(&f.func_type) is Some {
        vtype_err(&f.func_type)
    } else {
        block_err(&f.block)
    }
}

/// The port list and body of a lowerable function, as emitted between the
/// module's name and its `endmodule` line.
pub open spec fn func_chars(f: &FuncDef) -> Seq<char> {
    seq!['('] + params_chars(f.params@) + seq!['o', 'u', 't', 'p', 'u', 't', ' '] + vtype_text(
        &f.func_type,
    ) + seq![' ', 'o', 'u', 't', ')', ';', '\n'] + block_chars(&f.block)
}

/// Where a constant initializer other than a function sits.
pub open spec fn init_span(iv: &ConstInitVal) -> Option<Span> {
    match iv {
        ConstInitVal::Exp(ce) => Some(exp_span(&ce.exp)),
        ConstInitVal::Function(f) => Some(f.span),
        ConstInitVal::Proto(p) => Some(p.span),
        ConstInitVal::Class(c) => Some(c.span),
    }
}

/// The first failure inside a constant declaration: only function-valued
/// constants are lowered.
pub open spec fn decl_err(d: &ConstDecl) -> Option<(ErrorKind, Option<Span>)> {
    match d.init {
        ConstInitVal::Function(f) => func_err(&f),
        _ => Some((ErrorKind::UnsupportedNode, init_span(&d.init))),
    }
}

/// The whole module a lowerable declaration becomes.
pub open spec fn module_chars(d: &ConstDecl) -> Seq<char> {
    seq!['m', 'o', 'd', 'u', 'l', 'e', ' '] + d.id@ + func_chars(&d.init->Function_0) + seq![
        'e',
        'n',
        'd',
        'm',
        'o',
        'd',
        'u',
        'l',
        'e',
        '\n',
    ]
}

/// Whether this declaration designates the run's top module: its
/// attribute list carries `top`, in any position.
pub open spec fn is_top(d: &ConstDecl) -> bool {
    d.attr is Some && exists|i: int|
        0 <= i < d.attr->0.attrs@.len() && (#[trigger] d.attr->0.attrs@[i])@ == "top"@
}

/// The registry after this declaration: set to its name on a `top` mark,
/// else unchanged.
pub open spec fn top_after(d: &ConstDecl, top: Option<(String, Span)>) -> Option<(String, Span)> {
    if is_top(d) {
        Some((d.id, d.attr->0.span))
    } else {
        top
    }
}

/// The outcome of lowering one constant declaration against the registry
/// `top`: the module is lowered first, then the `top` mark is applied; a
/// second `top` in one run fails, naming both occurrences.
pub open spec fn const_decl_step(d: &ConstDecl, top: Option<(String, Span)>) -> GenStep {
    if decl_err(d) is Some {
        GenStep::Failed((decl_err(d)->0).0, (decl_err(d)->0).1, None)
    } else if is_top(d) && top is Some {
        GenStep::Failed(ErrorKind::DuplicateTopModule, Some(d.attr->0.span), Some((top->0).1))
    } else {
        GenStep::Done(module_chars(d), top_after(d, top))
    }
}

/// The outcome of lowering one top-level item: only constant declarations
/// are lowered.
pub open spec fn item_step(item: &GlobalItem, top: Option<(String, Span)>) -> GenStep {
    match item {
        GlobalItem::ConstDecl(d) => const_decl_step(d, top),
        GlobalItem::BuiltinFnCall(c) => GenStep::Failed(
            ErrorKind::UnsupportedNode,
            Some(c.span),
            None,
        ),
        GlobalItem::InlineAsm(a) => GenStep::Failed(ErrorKind::UnsupportedNode, Some(a.span), None),
    }
}

/// The outcome of lowering the items from position `i` on, against the
/// registry `top`: items are lowered in order and the first failure ends
/// the run.
pub open spec fn unit_step_from(
    items: Seq<GlobalItem>,
    i: int,
    top: Option<(String, Span)>,
) -> GenStep
    decreases items.len() - i,
{
    if i < 0 || i >= items.len() {
        GenStep::Done(seq![], top)
    } else {
        match item_step(&items[i], top) {
            GenStep::Failed(k, s, rel) => GenStep::Failed(k, s, rel),
            GenStep::Done(t1, top1) => match unit_step_from(items, i + 1, top1) {
                GenStep::Failed(k, s, rel) => GenStep::Failed(k, s, rel),
                GenStep::Done(t2, top2) => GenStep::Done(t1 + t2, top2),
            },
        }
    }
}

/// A step with `code` already emitted before it.
pub open spec fn step_after(code: Seq<char>, step: GenStep) -> GenStep {
    match step {
        GenStep::Done(t, top) => GenStep::Done(code + t, top),
        GenStep::Failed(k, s, rel) => GenStep::Failed(k, s, rel),
    }
}

/// What a result and a context change mean, measured against a `GenStep`:
/// on `Done` the result is `Ok`, exactly the step's text was appended and
/// the registry is the step's; on `Failed` the result is `Err` carrying
/// the step's kind and locations. The output buffer is append-only either
/// way: even a failing call only ever adds to what was already emitted.
pub open spec fn step_holds<T>(
    pre: GenCtx,
    post: GenCtx,
    r: Result<T, Error>,
    step: GenStep,
) -> bool {
    match step {
        GenStep::Done(t, top) => r is Ok && post.code@ == pre.code@ + t && post.top_module == top,
        GenStep::Failed(k, s, rel) => r is Err && r->Err_0.kind == k && r->Err_0.span == s
            && r->Err_0.related == rel && pre.code@.is_prefix_of(post.code@),
    }
}

/// The registry is never silently overwritten: it either stays what it
/// was, or goes from unset to set.
pub open spec fn top_extends(pre: Option<(String, Span)>, post: Option<(String, Span)>) -> bool {
    post == pre || (pre is None && post is Some)
}

/// A sequence is a prefix of itself extended by anything.
proof fn lemma_concat_prefix(a: Seq<char>, b: Seq<char>)
    ensures
        a.is_prefix_of(a + b),
{
    assert(a =~= (a + b).subrange(0, a.len() as int));
}

/// Being a prefix carries across an intermediate sequence.
proof fn lemma_prefix_trans(a: Seq<char>, b: Seq<char>, c: Seq<char>)
    requires
        a.is_prefix_of(b),
        b.is_prefix_of(c),
    ensures
        a.is_prefix_of(c),
{
    assert(a =~= c.subrange(0, a.len() as int));
}

/// As `step_holds`, for the tree parts that never touch the top-module
/// registry: the registry is additionally unchanged even on failure.
pub open spec fn step_holds_no_top<T>(
    pre: GenCtx,
    post: GenCtx,
    r: Result<T, Error>,
    step: GenStep,
) -> bool {
    step_holds(pre, post, r, step) && post.top_module == pre.top_module
}

// ---------------------------------------------------------------------------
// The generator itself
// ---------------------------------------------------------------------------
/// Lowering a syntax-tree node into a generator context.
pub trait GenerateVerilog {
    type Out;

    /// The contract of `generate` on this node kind.
    spec fn gen_ens(&self, pre: GenCtx, post: GenCtx, r: Result<Self::Out, Error>) -> bool;

    /// Lowers this node, appending its text to `ctx.code`.
    fn generate(&self, ctx: &mut GenCtx) -> (r: Result<Self::Out, Error>)
        ensures
            self.gen_ens(*old(ctx), *final(ctx), r),
    ;
}

impl GenerateVerilog for VType {
    type Out = ();

    open spec fn gen_ens(&self, pre: GenCtx, post: GenCtx, r: Result<(), Error>) -> bool {
        step_holds_no_top(
            pre,
            post,
            r,
            match vtype_err(self) {
                None => GenStep::Done(vtype_text(self), pre.top_module),
                Some((k, s)) => GenStep::Failed(k, s, None),
            },
        ) && (r is Err ==> post.code == pre.code)
    }

    fn generate(&self, ctx: &mut GenCtx) -> (r: Result<(), Error>) {
        if self.star != 0 {
            return Err(
                Error {
                    kind: ErrorKind::PointerWidthUnsupported,
                    span: Some(self.span.dup()),
                    related: None,
                    msg: String::from_str("pointer types have no port width"),
                },
            );
        }
        let width: u64 = match &self.ty {
            VTypeEnum::I8 => 8,
            VTypeEnum::U64 => 64,
            VTypeEnum::Void => 0,
            VTypeEnum::Others(_) => {
                return Err(
                    Error {
                        kind: ErrorKind::UnsupportedNode,
                        span: Some(self.span.dup()),
                        related: None,
                        msg: String::from_str("named types have no port width"),
                    },
                );
            },
        };
        push_char(&mut ctx.code, '[');
        if width == 0 {
            push_char(&mut ctx.code, '-');
            push_char(&mut ctx.code, '1');
        } else {
            let w = u64_to_string(width - 1);
            ctx.code.append(w.as_str());
        }
        push_char(&mut ctx.code, ':');
        push_char(&mut ctx.code, '0');
        push_char(&mut ctx.code, ']');
        proof {
            assert(ctx.code@ =~= old(ctx).code@ + vtype_text(self));
        }
        Ok(())
    }
}

impl GenerateVerilog for Number {
    type Out = ();

    open spec fn gen_ens(&self, pre: GenCtx, post: GenCtx, r: Result<(), Error>) -> bool {
        step_holds_no_top(pre, post, r, GenStep::Done(dec_chars(self.num as nat), pre.top_module))
    }

    fn generate(&self, ctx: &mut GenCtx) -> (r: Result<(), Error>) {
        let s = u64_to_string(self.num);
        ctx.code.append(s.as_str());
        Ok(())
    }
}

impl GenerateVerilog for LVal {
    type Out = ();

    open spec fn gen_ens(&self, pre: GenCtx, post: GenCtx, r: Result<(), Error>) -> bool {
        step_holds_no_top(pre, post, r, GenStep::Done(join_ids(self.ids@), pre.top_module))
    }

    fn generate(&self, ctx: &mut GenCtx) -> (r: Result<(), Error>) {
        let n = self.ids.len();
        let mut i: usize = 0;
        proof {
            assert(old(ctx).code@ + join_ids(self.ids@.take(0)) =~= old(ctx).code@);
        }
        while i < n
            invariant
                0 <= i <= n,
                n == self.ids.len(),
                ctx.code@ == old(ctx).code@ + join_ids(self.ids@.take(i as int)),
                ctx.top_module == old(ctx).top_module,
            decreases n - i,
        {
            if i > 0 {
                push_char(&mut ctx.code, '.');
            }
            ctx.code.append(self.ids[i].as_str());
            proof {
                assert(self.ids@.take(i + 1).drop_last() =~= self.ids@.take(i as int));
                assert(self.ids@.take(i + 1).last() == self.ids@[i as int]);
                assert(ctx.code@ =~= old(ctx).code@ + join_ids(self.ids@.take(i + 1)));
            }
            i = i + 1;
        }
        proof {
            assert(self.ids@.take(n as int) =~= self.ids@);
        }
        Ok(())
    }
}

impl GenerateVerilog for Exp {
    type Out = ();

    open spec fn gen_ens(&self, pre: GenCtx, post: GenCtx, r: Result<(), Error>) -> bool {
        step_holds_no_top(
            pre,
            post,
            r,
            match exp_err(self) {
                None => GenStep::Done(exp_chars(self), pre.top_module),
                Some((k, s)) => GenStep::Failed(k, s, None),
            },
        )
    }

    fn generate(&self, ctx: &mut GenCtx) -> (r: Result<(), Error>)
        decreases *self,
    {
        match self {
            Exp::Unary(unary, exp, _span) => {
                match unary {
                    UnaryOp::Not => push_char(&mut ctx.code, '~'),
                    UnaryOp::Negative => push_char(&mut ctx.code, '-'),
                    UnaryOp::Positive => (),
                }
                let r = exp.generate(ctx);
                proof {
                    if exp_err(self) is None && r is Ok {
                        assert(ctx.code@ =~= old(ctx).code@ + exp_chars(self));
                    }
                }
                r
            },
            Exp::Exp(exp, _span) => exp.generate(ctx),
            Exp::Number(number) => number.generate(ctx),
            Exp::LVal(lval) => lval.generate(ctx),
            Exp::Binary(lhs, op, rhs, _span) => {
                lhs.generate(ctx)?;
                push_char(&mut ctx.code, ' ');
                match op {
                    BinaryOp::Eq => {
                        push_char(&mut ctx.code, '=');
                        push_char(&mut ctx.code, '=');
                    },
                    BinaryOp::Neq => {
                        push_char(&mut ctx.code, '!');
                        push_char(&mut ctx.code, '=');
                    },
                    BinaryOp::Add => push_char(&mut ctx.code, '+'),
                    BinaryOp::Sub => push_char(&mut ctx.code, '-'),
                    BinaryOp::Mul => push_char(&mut ctx.code, '*'),
                    BinaryOp::Div => push_char(&mut ctx.code, '/'),
                    BinaryOp::Ge => {
                        push_char(&mut ctx.code, '>');
                        push_char(&mut ctx.code, '=');
                    },
                    BinaryOp::Le => {
                        push_char(&mut ctx.code, '<');
                        push_char(&mut ctx.code, '=');
                    },
                    BinaryOp::Gt => push_char(&mut ctx.code, '>'),
                    BinaryOp::Lt => push_char(&mut ctx.code, '<'),
                    BinaryOp::Mod => push_char(&mut ctx.code, '%'),
                }
                push_char(&mut ctx.code, ' ');
                let r = rhs.generate(ctx);
                proof {
                    if exp_err(self) is None && r is Ok {
                        assert(ctx.code@ =~= old(ctx).code@ + exp_chars(self));
                    }
                }
                r
            },
            _ => Err(
                Error {
                    kind: ErrorKind::UnsupportedNode,
                    span: Some(self.get_span()),
                    related: None,
                    msg: String::from_str("expression kind not lowered"),
                },
            ),
        }
    }
}

impl GenerateVerilog for Return {
    type Out = ();

    open spec fn gen_ens(&self, pre: GenCtx, post: GenCtx, r: Result<(), Error>) -> bool {
        step_holds_no_top(
            pre,
            post,
            r,
            match exp_err(&self.exp) {
                None => GenStep::Done(return_chars(self), pre.top_module),
                Some((k, s)) => GenStep::Failed(k, s, None),
            },
        )
    }

    fn generate(&self, ctx: &mut GenCtx) -> (r: Result<(), Error>) {
        ctx.code.append("assign out = ");
        self.exp.generate(ctx)?;
        push_char(&mut ctx.code, ';');
        push_char(&mut ctx.code, '\n');
        proof {
            assert("assign out = "@ =~= seq![
                'a',
                's',
                's',
                'i',
                'g',
                'n',
                ' ',
                'o',
                'u',
                't',
                ' ',
                '=',
                ' ',
            ]) by {
                reveal_strlit("assign out = ");
            }
            assert(ctx.code@ =~= old(ctx).code@ + return_chars(self));
        }
        Ok(())
    }
}

impl GenerateVerilog for Block {
    type Out = ();

    open spec fn gen_ens(&self, pre: GenCtx, post: GenCtx, r: Result<(), Error>) -> bool {
        step_holds_no_top(
            pre,
            post,
            r,
            match block_err(self) {
                None => GenStep::Done(block_chars(self), pre.top_module),
                Some((k, s)) => GenStep::Failed(k, s, None),
            },
        ) && ((self.items@.len() == 0 || !(self.items@[0] matches BlockItem::Stmt(
            Stmt::Return(_),
        ))) ==> post.code == pre.code)
    }

    fn generate(&self, ctx: &mut GenCtx) -> (r: Result<(), Error>) {
        if self.items.len() == 0 {
            return Err(
                Error {
                    kind: ErrorKind::UnsupportedNode,
                    span: Some(self.span.dup()),
                    related: None,
                    msg: String::from_str("a lowered body cannot be empty"),
                },
            );
        }
        match &self.items[0] {
            BlockItem::Stmt(Stmt::Return(ret)) => {
                ret.generate(ctx)?;
                if self.items.len() > 1 {
                    return Err(
                        Error {
                            kind: ErrorKind::UnsupportedNode,
                            span: block_item_location(&self.items[1]),
                            related: None,
                            msg: String::from_str(
                                "a lowered body holds exactly one return statement",
                            ),
                        },
                    );
                }
                Ok(())
            },
            item => Err(
                Error {
                    kind: ErrorKind::UnsupportedNode,
                    span: block_item_location(item),
                    related: None,
                    msg: String::from_str("only a single return statement is lowered"),
                },
            ),
        }
    }
}

/// The location of a block item, when it carries one.
fn block_item_location(item: &BlockItem) -> (s: Option<Span>)
    ensures
        s == block_item_span(item),
{
    match item {
        BlockItem::Decl(Decl::Const(c)) => Some(c.span.dup()),
        BlockItem::Decl(Decl::Var(v)) => Some(v.span.dup()),
        BlockItem::Stmt(stmt) => stmt_location(stmt),
    }
}

/// The location of a statement, when it carries one.
fn stmt_location(stmt: &Stmt) -> (s: Option<Span>)
    ensures
        s == stmt_span(stmt),
{
    match stmt {
        Stmt::Assign(crate::stmt::Assign::WriteVar(_, _, span)) => Some(span.dup()),
        Stmt::Assign(crate::stmt::Assign::WritePtr(_, _, span)) => Some(span.dup()),
        Stmt::Return(r) => Some(r.span.dup()),
        Stmt::Block(b) => Some(b.span.dup()),
        Stmt::Exp(Some(exp)) => Some(exp.get_span()),
        Stmt::Exp(None) => None,
        Stmt::If(i) => Some(i.span.dup()),
        Stmt::InlineAsm(a) => Some(a.span.dup()),
        Stmt::While(w) => Some(w.span.dup()),
        Stmt::Terminator(t) => Some(t.span()),
        Stmt::For(f) => Some(f.span.dup()),
    }
}

impl GenerateVerilog for FuncDef {
    type Out = ();

    open spec fn gen_ens(&self, pre: GenCtx, post: GenCtx, r: Result<(), Error>) -> bool {
        step_holds_no_top(
            pre,
            post,
            r,
            match func_err(self) {
                None => GenStep::Done(func_chars(self), pre.top_module),
                Some((k, s)) => GenStep::Failed(k, s, None),
            },
        )
    }

    fn generate(&self, ctx: &mut GenCtx) -> (r: Result<(), Error>) {
        push_char(&mut ctx.code, '(');
        let n = self.params.len();
        let mut i: usize = 0;
        proof {
            assert(ctx.code@ + params_chars(self.params@.take(0)) =~= ctx.code@);
        }
        while i < n
            invariant
                0 <= i <= n,
                n == self.params.len(),
                ctx.code@ == old(ctx).code@ + seq!['('] + params_chars(self.params@.take(i as int)),
                ctx.top_module == old(ctx).top_module,
                params_err_from(self.params@, 0) == params_err_from(self.params@, i as int),
            decreases n - i,
        {
            ctx.code.append("input ");
            let param = &self.params[i];
            let res = param.ty.generate(ctx);
            match res {
                Ok(_) => (),
                Err(e) => {
                    proof {
                        assert(params_err_from(self.params@, i as int) == vtype_err(
                            &self.params@[i as int].ty,
                        ));
                    }
                    return Err(e);
                },
            }
            push_char(&mut ctx.code, ' ');
            ctx.code.append(param.id.as_str());
            push_char(&mut ctx.code, ',');
            push_char(&mut ctx.code, ' ');
            proof {
                assert(self.params@.take(i + 1).drop_last() =~= self.params@.take(i as int));
                assert("input "@ =~= seq!['i', 'n', 'p', 'u', 't', ' ']) by {
                    reveal_strlit("input ");
                }
                assert(ctx.code@ =~= old(ctx).code@ + seq!['('] + params_chars(
                    self.params@.take(i + 1),
                ));
            }
            i = i + 1;
        }
        proof {
            assert(self.params@.take(n as int) =~= self.params@);
        }
        ctx.code.append("output ");
        self.func_type.generate(ctx)?;
        ctx.code.append(" out);\n");
        self.block.generate(ctx)?;
        proof {
            assert("output "@ =~= seq!['o', 'u', 't', 'p', 'u', 't', ' ']) by {
                reveal_strlit("output ");
            }
            assert(" out);\n"@ =~= seq![' ', 'o', 'u', 't', ')', ';', '\n']) by {
                reveal_strlit(" out);\n");
            }
            assert(ctx.code@ =~= old(ctx).code@ + func_chars(self));
        }
        Ok(())
    }
}

impl GenerateVerilog for ConstInitVal {
    type Out = ();

    open spec fn gen_ens(&self, pre: GenCtx, post: GenCtx, r: Result<(), Error>) -> bool {
        step_holds_no_top(
            pre,
            post,
            r,
            match self {
                ConstInitVal::Function(f) => match func_err(f) {
                    None => GenStep::Done(func_chars(f), pre.top_module),
                    Some((k, s)) => GenStep::Failed(k, s, None),
                },
                _ => GenStep::Failed(ErrorKind::UnsupportedNode, init_span(self), None),
            },
        ) && (!(self matches ConstInitVal::Function(_)) ==> post.code == pre.code)
    }

    fn generate(&self, ctx: &mut GenCtx) -> (r: Result<(), Error>) {
        match self {
            ConstInitVal::Function(func) => func.generate(ctx),
            ConstInitVal::Exp(ce) => Err(
                Error {
                    kind: ErrorKind::UnsupportedNode,
                    span: Some(ce.exp.get_span()),
                    related: None,
                    msg: String::from_str("constant-expression initializers are not lowered"),
                },
            ),
            ConstInitVal::Proto(p) => Err(
                Error {
                    kind: ErrorKind::UnsupportedNode,
                    span: Some(p.span.dup()),
                    related: None,
                    msg: String::from_str("prototype initializers are not lowered"),
                },
            ),
            ConstInitVal::Class(c) => Err(
                Error {
                    kind: ErrorKind::UnsupportedNode,
                    span: Some(c.span.dup()),
                    related: None,
                    msg: String::from_str("class initializers are not lowered"),
                },
            ),
        }
    }
}

/// Whether the attribute list carries `top` in any position.
fn carries_top(attrs: &Vec<String>) -> (r: bool)
    ensures
        r == exists|i: int| 0 <= i < attrs@.len() && (#[trigger] attrs@[i])@ == "top"@,
{
    let mut i: usize = 0;
    while i < attrs.len()
        invariant
            0 <= i <= attrs.len(),
            forall|j: int| 0 <= j < i ==> (#[trigger] attrs@[j])@ != "top"@,
        decreases attrs.len() - i,
    {
        if str_eq(attrs[i].as_str(), "top") {
            return true;
        }
        i = i + 1;
    }
    false
}

impl GenerateVerilog for ConstDecl {
    type Out = ();

    open spec fn gen_ens(&self, pre: GenCtx, post: GenCtx, r: Result<(), Error>) -> bool {
        step_holds(pre, post, r, const_decl_step(self, pre.top_module)) && (r is Err
            ==> post.top_module == pre.top_module)
    }

    fn generate(&self, ctx: &mut GenCtx) -> (r: Result<(), Error>) {
        ctx.code.append("module ");
        ctx.code.append(self.id.as_str());
        self.init.generate(ctx)?;
        ctx.code.append("endmodule\n");
        if let Some(attr) = &self.attr {
            if carries_top(&attr.attrs) {
                if let Some(prev) = &ctx.top_module {
                    return Err(
                        Error {
                            kind: ErrorKind::DuplicateTopModule,
                            span: Some(attr.span.dup()),
                            related: Some(prev.1.dup()),
                            msg: String::from_str("a run designates at most one top module"),
                        },
                    );
                }
                ctx.top_module = Some((self.id.clone(), attr.span.dup()));
            }
        }
        proof {
            assert("module "@ =~= seq!['m', 'o', 'd', 'u', 'l', 'e', ' ']) by {
                reveal_strlit("module ");
            }
            assert("endmodule\n"@ =~= seq!['e', 'n', 'd', 'm', 'o', 'd', 'u', 'l', 'e', '\n']) by {
                reveal_strlit("endmodule\n");
            }
            assert(ctx.code@ =~= old(ctx).code@ + module_chars(self));
        }
        Ok(())
    }
}

impl GenerateVerilog for GlobalItem {
    type Out = ();

    open spec fn gen_ens(&self, pre: GenCtx, post: GenCtx, r: Result<(), Error>) -> bool {
        step_holds(pre, post, r, item_step(self, pre.top_module)) && (r is Err ==> post.top_module
            == pre.top_module) && (!(self matches GlobalItem::ConstDecl(_)) ==> post.code
            == pre.code)
    }

    fn generate(&self, ctx: &mut GenCtx) -> (r: Result<(), Error>) {
        match self {
            GlobalItem::ConstDecl(decl) => decl.generate(ctx),
            GlobalItem::BuiltinFnCall(c) => Err(
                Error {
                    kind: ErrorKind::UnsupportedNode,
                    span: Some(c.span.dup()),
                    related: None,
                    msg: String::from_str("built-in function calls are not lowered"),
                },
            ),
            GlobalItem::InlineAsm(a) => Err(
                Error {
                    kind: ErrorKind::UnsupportedNode,
                    span: Some(a.span.dup()),
                    related: None,
                    msg: String::from_str("inline assembly is not lowered"),
                },
            ),
        }
    }
}

impl GenerateVerilog for CompUnit {
    type Out = ();

    open spec fn gen_ens(&self, pre: GenCtx, post: GenCtx, r: Result<(), Error>) -> bool {
        step_holds(pre, post, r, unit_step_from(self.global_items@, 0, pre.top_module))
            && top_extends(pre.top_module, post.top_module)
    }

    fn generate(&self, ctx: &mut GenCtx) -> (r: Result<(), Error>) {
        let n = self.global_items.len();
        let mut i: usize = 0;
        while i < n
            invariant
                0 <= i <= n,
                n == self.global_items.len(),
                step_after(
                    ctx.code@,
                    unit_step_from(self.global_items@, i as int, ctx.top_module),
                ) == step_after(
                    old(ctx).code@,
                    unit_step_from(self.global_items@, 0, old(ctx).top_module),
                ),
                old(ctx).code@.is_prefix_of(ctx.code@),
                top_extends(old(ctx).top_module, ctx.top_module),
            decreases n - i,
        {
            let item = &self.global_items[i];
            let ghost pre_loop = *ctx;
            let res = item.generate(ctx);
            match res {
                Ok(_) => (),
                Err(e) => {
                    proof {
                        lemma_prefix_trans(old(ctx).code@, pre_loop.code@, ctx.code@);
                    }
                    return Err(e);
                },
            }
            proof {
                lemma_concat_prefix(
                    pre_loop.code@,
                    item_step(&self.global_items@[i as int], pre_loop.top_module)->Done_0,
                );
                lemma_prefix_trans(old(ctx).code@, pre_loop.code@, ctx.code@);
                let items = self.global_items@;
                let step_i = unit_step_from(items, i as int, pre_loop.top_module);
                let step_n = unit_step_from(items, i + 1, ctx.top_module);
                assert(item_step(&items[i as int], pre_loop.top_module) matches GenStep::Done(
                    t,
                    tp,
                ) && ctx.code@ == pre_loop.code@ + t && ctx.top_module == tp);
                match step_n {
                    GenStep::Done(t2, top2) => {
                        assert(step_i matches GenStep::Done(t1a, _));
                        let t1 = item_step(&items[i as int], pre_loop.top_module)->Done_0;
                        assert(step_i == GenStep::Done(t1 + t2, top2));
                        assert(pre_loop.code@ + (t1 + t2) =~= (pre_loop.code@ + t1) + t2);
                    },
                    GenStep::Failed(..) => {},
                }
            }
            i = i + 1;
        }
        proof {
            assert(ctx.code@ + Seq::<char>::empty() =~= ctx.code@);
        }
        Ok(())
    }
}

/// Lowers a whole compilation unit in a fresh context and returns the
/// generated text: one module per function-valued constant declaration,
/// in source order, or the first failure. On failure nothing is returned:
/// no partial output is valid.
pub fn generate_verilog(unit: &CompUnit) -> (r: Result<String, Error>)
    ensures
        match unit_step_from(unit.global_items@, 0, None) {
            GenStep::Done(t, _) => r is Ok && r->Ok_0@ == t,
            GenStep::Failed(k, s, rel) => r is Err && r->Err_0.kind == k && r->Err_0.span == s
                && r->Err_0.related == rel,
        },
{
    let mut ctx = GenCtx::new();
    match unit.generate(&mut ctx) {
        Ok(_) => Ok(ctx.code),
        Err(e) => Err(e),
    }
}

} // verus!
