//! Declaration nodes of the syntax tree.

use vstd::prelude::*;

use crate::expr::{ConstExp, Exp};
use crate::program::Block;
use crate::span::Span;
use crate::types::VType;

verus! {

/// An ordered list of bare-identifier attributes, as written in a
/// bracketed attribute list before a constant declaration.
#[derive(Debug, PartialEq, Eq)]
pub struct Attributes {
    pub attrs: Vec<String>,
    pub span: Span,
}

/// A function definition: return type, ordered parameters, and a body.
#[derive(Debug, PartialEq, Eq)]
pub struct FuncDef {
    pub func_type: VType,
    pub block: Block,
    pub params: Vec<Param>,
    pub span: Span,
}

/// A function prototype; a reserved extension point, never built by the
/// surface parser.
#[derive(Debug, PartialEq, Eq)]
pub struct ProtoDef {
    pub func_type: VType,
    pub params: Vec<Param>,
    pub span: Span,
}

/// One function parameter.
#[derive(Debug, PartialEq, Eq)]
pub struct Param {
    pub ty: VType,
    pub id: String,
    pub span: Span,
}

/// A declaration inside a block.
#[derive(Debug, PartialEq, Eq)]
pub enum Decl {
    Const(ConstDecl),
    Var(VarDecl),
}

/// One data member of a class definition; a reserved extension point.
#[derive(Debug, PartialEq, Eq)]
pub struct ClassMember {
    pub ty: VType,
    pub id: String,
    pub span: Span,
}

/// A class definition; a reserved extension point, never built by the
/// surface parser.
#[derive(Debug, PartialEq, Eq)]
pub struct ClassDef {
    pub members: Vec<ClassMember>,
    pub consts: Vec<ConstDecl>,
    pub span: Span,
}

/// One member initializer of a class instantiation; a reserved extension
/// point.
#[derive(Debug, PartialEq, Eq)]
pub struct NewClassMember {
    pub id: String,
    pub val: Exp,
    pub span: Span,
}

/// A class instantiation; a reserved extension point.
#[derive(Debug, PartialEq, Eq)]
pub struct NewClass {
    pub class: String,
    pub members: Vec<NewClassMember>,
    pub span: Span,
}

/// A constant declaration: optional attributes, an identifier, and an
/// initializer.
#[derive(Debug, PartialEq, Eq)]
pub struct ConstDecl {
    pub attr: Option<Attributes>,
    pub id: String,
    pub init: ConstInitVal,
    pub span: Span,
}

/// The initializer of a constant declaration.
#[derive(Debug, PartialEq, Eq)]
pub enum ConstInitVal {
    Exp(ConstExp),
    Function(FuncDef),
    Proto(ProtoDef),
    Class(ClassDef),
}

/// A variable declaration: identifier, type, and initializer.
#[derive(Debug, PartialEq, Eq)]
pub struct VarDecl {
    pub id: String,
    pub ty: VType,
    pub init: InitVal,
    pub span: Span,
}

/// The initializer of a variable declaration.
#[derive(Debug, PartialEq, Eq)]
pub struct InitVal {
    pub exp: Exp,
}

} // verus!
