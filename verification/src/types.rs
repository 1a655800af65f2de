//! The type syntax of the source language: a base kind plus a pointer depth.

use vstd::prelude::*;

use crate::span::Span;

verus! {

/// The base kind of a type: the three built-in keywords, plus a named
/// kind that exists in the data model as a forward-compatible extension
/// point (the surface parser rejects unknown type names).
#[derive(Debug, PartialEq, Eq)]
pub enum VTypeEnum {
    U64,
    I8,
    Void,
    Others(String),
}

/// A type as written in the source: base kind and the number of pointer
/// markers ("stars") that followed it.
#[derive(Debug, PartialEq, Eq)]
pub struct VType {
    pub ty: VTypeEnum,
    pub star: usize,
    pub span: Span,
}

} // verus!
