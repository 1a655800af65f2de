//! Expression nodes of the syntax tree.

use vstd::prelude::*;

use crate::span::Span;
use crate::stmt::FuncCall;

verus! {

/// An expression that must be constant; the parser builds one wherever the
/// grammar demands a compile-time value (an array template's count).
#[derive(Debug, PartialEq, Eq)]
pub struct ConstExp {
    pub exp: Exp,
}

/// An array literal: either an explicit element list, or a template
/// `value` repeated `count` times where `count` is a constant expression.
#[derive(Debug, PartialEq, Eq)]
pub enum Array {
    List(Vec<Exp>, Span),
    Template(Exp, ConstExp, Span),
}

/// The span of an array literal.
pub open spec fn array_span(a: &Array) -> Span {
    match a {
        Array::List(_, span) => *span,
        Array::Template(_, _, span) => *span,
    }
}

impl Array {
    /// The source range this array literal came from.
    pub fn get_span(&self) -> (s: Span)
        ensures
            s == array_span(self),
    {
        match self {
            Array::List(_, span) => span.dup(),
            Array::Template(_, _, span) => span.dup(),
        }
    }
}

/// An expression.
#[derive(Debug, PartialEq, Eq)]
pub enum Exp {
    /// A parenthesized sub-expression.
    Exp(Box<Exp>, Span),
    Number(Number),
    LVal(Box<LVal>),
    FuncCall(FuncCall),
    Str(String, Span),
    Unary(UnaryOp, Box<Exp>, Span),
    Binary(Box<Exp>, BinaryOp, Box<Exp>, Span),
    GetAddr(Box<GetAddr>),
    Deref(Box<Deref>),
    Array(Box<Array>),
}

/// The span of an expression.
pub open spec fn exp_span(e: &Exp) -> Span {
    match e {
        Exp::Exp(_, span) => *span,
        Exp::Number(number) => number.span,
        Exp::LVal(lval) => lval.span,
        Exp::FuncCall(func_call) => func_call.span,
        Exp::Str(_, span) => *span,
        Exp::Unary(_, _, span) => *span,
        Exp::Binary(_, _, _, span) => *span,
        Exp::GetAddr(get_addr) => get_addr.span,
        Exp::Deref(deref) => deref_span(deref),
        Exp::Array(array) => array_span(array),
    }
}

impl Exp {
    /// The source range this expression came from.
    pub fn get_span(&self) -> (s: Span)
        ensures
            s == exp_span(self),
    {
        match self {
            Exp::Exp(_, span) => span.dup(),
            Exp::Number(number) => number.span.dup(),
            Exp::LVal(lval) => lval.span.dup(),
            Exp::FuncCall(func_call) => func_call.span.dup(),
            Exp::Str(_, span) => span.dup(),
            Exp::Unary(_, _, span) => span.dup(),
            Exp::Binary(_, _, _, span) => span.dup(),
            Exp::GetAddr(get_addr) => get_addr.span.dup(),
            Exp::Deref(deref) => deref.get_span(),
            Exp::Array(array) => array.get_span(),
        }
    }
}

/// An addressable reference: a dotted identifier path, with an optional
/// index expression (unused by the surface parser, which always builds a
/// single identifier with no index).
#[derive(Debug, PartialEq, Eq)]
pub struct LVal {
    pub ids: Vec<String>,
    pub span: Span,
    pub exp: Option<Exp>,
}

/// A pointer dereference, in four shapes: the pointee is either a bare
/// identifier or an arbitrary expression, with or without an offset
/// expression.
#[derive(Debug, PartialEq, Eq)]
pub enum Deref {
    DerefId(LVal, Span),
    DerefExp(Exp, Span),
    DerefPtrExp(Exp, Exp, Span),
    DerefPtr(LVal, Exp, Span),
}

/// The span of a dereference expression.
pub open spec fn deref_span(d: &Deref) -> Span {
    match d {
        Deref::DerefId(_, span) => *span,
        Deref::DerefExp(_, span) => *span,
        Deref::DerefPtrExp(_, _, span) => *span,
        Deref::DerefPtr(_, _, span) => *span,
    }
}

impl Deref {
    /// The source range this dereference came from.
    pub fn get_span(&self) -> (s: Span)
        ensures
            s == deref_span(self),
    {
        match self {
            Deref::DerefId(_, span) => span.dup(),
            Deref::DerefExp(_, span) => span.dup(),
            Deref::DerefPtrExp(_, _, span) => span.dup(),
            Deref::DerefPtr(_, _, span) => span.dup(),
        }
    }
}

/// Taking the address of an lvalue.
#[derive(Debug, PartialEq, Eq)]
pub struct GetAddr {
    pub lval: LVal,
    pub span: Span,
}

/// An unsigned 64-bit numeric literal.
#[derive(Debug, PartialEq, Eq)]
pub struct Number {
    pub num: u64,
    pub span: Span,
}

/// The unary prefix operators. The surface parser builds only `Positive`
/// and `Negative`; `Not` is reachable by direct construction.
#[derive(Debug, PartialEq, Eq)]
pub enum UnaryOp {
    Positive,
    Negative,
    Not,
}

/// The binary operators. The comparisons exist in the data model but have
/// no precedence-table entry in the surface parser: they are reachable
/// only by direct construction.
#[derive(Debug, PartialEq, Eq)]
pub enum BinaryOp {
    Mul,
    Div,
    Mod,
    Add,
    Sub,
    Lt,
    Gt,
    Le,
    Ge,
    Eq,
    Neq,
}

} // verus!
