//! The root of the syntax tree: a compilation unit and its blocks.

use vstd::prelude::*;

use crate::defs::{ConstDecl, Decl};
use crate::span::Span;
use crate::stmt::{BuiltinFunctionCall, InlineAsm, Stmt};

verus! {

/// A whole source file after parsing: its ordered top-level items.
#[derive(Debug, PartialEq, Eq)]
pub struct CompUnit {
    pub global_items: Vec<GlobalItem>,
    pub span: Span,
}

/// A top-level item. The surface parser builds only `ConstDecl`; the
/// other two are reserved extension points.
#[derive(Debug, PartialEq, Eq)]
pub enum GlobalItem {
    ConstDecl(ConstDecl),
    BuiltinFnCall(BuiltinFunctionCall),
    InlineAsm(InlineAsm),
}

/// A block: an ordered sequence of declarations and statements.
#[derive(Debug, PartialEq, Eq)]
pub struct Block {
    pub items: Vec<BlockItem>,
    pub span: Span,
}

/// One item of a block.
#[derive(Debug, PartialEq, Eq)]
pub enum BlockItem {
    Decl(Decl),
    Stmt(Stmt),
}

} // verus!
