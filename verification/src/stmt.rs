//! Statement nodes of the syntax tree.

use vstd::prelude::*;

use crate::expr::{Deref, Exp, LVal};
use crate::program::Block;
use crate::span::Span;

verus! {

/// A statement.
#[derive(Debug, PartialEq, Eq)]
pub enum Stmt {
    Assign(Assign),
    Return(Return),
    Block(Block),
    Exp(Option<Exp>),
    If(If),
    InlineAsm(InlineAsm),
    While(While),
    Terminator(Terminator),
    For(For),
}

/// A `while` loop.
#[derive(Debug, PartialEq, Eq)]
pub struct While {
    pub cond: Exp,
    pub body: Block,
    pub span: Span,
}

/// A `for` loop over `start..end` with an explicit `step`.
#[derive(Debug, PartialEq, Eq)]
pub struct For {
    pub var: String,
    pub start: Exp,
    pub end: Exp,
    pub step: Exp,
    pub body: Block,
    pub span: Span,
}

/// One operand constraint of an inline-assembly block. The surface parser
/// builds only input constraints.
#[derive(Debug, PartialEq, Eq)]
pub enum AsmConstraint {
    In(String, Exp, Span),
    Out(String, LVal, Span),
}

/// An inline-assembly block: the assembly text plus its ordered operand
/// constraints.
#[derive(Debug, PartialEq, Eq)]
pub struct InlineAsm {
    pub code: String,
    pub constraints: Vec<AsmConstraint>,
    pub span: Span,
}

/// An assignment, either to a variable or through a pointer dereference.
#[derive(Debug, PartialEq, Eq)]
pub enum Assign {
    WriteVar(LVal, Exp, Span),
    WritePtr(Deref, Exp, Span),
}

/// A `return` statement.
#[derive(Debug, PartialEq, Eq)]
pub struct Return {
    pub exp: Exp,
    pub span: Span,
}

/// An `if` statement with an optional `else` block.
#[derive(Debug, PartialEq, Eq)]
pub struct If {
    pub cond: Exp,
    pub body: Block,
    pub else_body: Option<Block>,
    pub span: Span,
}

/// A function call: a dotted name path plus ordered arguments.
#[derive(Debug, PartialEq, Eq)]
pub struct FuncCall {
    pub ids: Vec<String>,
    pub args: Vec<Exp>,
    pub span: Span,
}

/// The built-in functions of the data model; reserved extension points,
/// never built by the surface parser.
#[derive(Debug, PartialEq, Eq)]
pub enum BuiltinFunction {
    Import,
    Module,
    DoMagic,
    FirstModule,
}

/// A call of a built-in function; a reserved extension point.
#[derive(Debug, PartialEq, Eq)]
pub struct BuiltinFunctionCall {
    pub func: BuiltinFunction,
    pub args: Vec<Exp>,
    pub span: Span,
}

impl Deref {
    /// The source range this dereference came from.
    pub fn span(&self) -> (s: Span)
        ensures
            s == crate::expr::deref_span(self),
    {
        self.get_span()
    }
}

/// A loop terminator: `break;` or `continue;`.
#[derive(Debug, PartialEq, Eq)]
pub enum Terminator {
    Break(Span),
    Continue(Span),
}

/// The span of a terminator.
pub open spec fn terminator_span(t: &Terminator) -> Span {
    match t {
        Terminator::Break(span) => *span,
        Terminator::Continue(span) => *span,
    }
}

impl Terminator {
    /// The source range this terminator came from.
    pub fn span(&self) -> (s: Span)
        ensures
            s == terminator_span(self),
    {
        match self {
            Terminator::Break(span) => span.dup(),
            Terminator::Continue(span) => span.dup(),
        }
    }
}

} // verus!
