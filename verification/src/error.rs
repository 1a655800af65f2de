//! Structured failures. Parsing and generation never abort the process:
//! they return an `Error` carrying a kind, the source location it arose
//! at (when one is attributable), and a human-readable message.

use vstd::prelude::*;

use crate::span::Span;

verus! {

/// What went wrong. Every kind is fatal for the whole run: no partial
/// output is valid once any of these arises.
#[derive(Clone, Copy, Debug, PartialEq, Eq, Structural)]
pub enum ErrorKind {
    /// The grammar rejected the input.
    SyntaxError,
    /// A type keyword outside the built-in set.
    UnknownType,
    /// A loop terminator other than `break;` or `continue;`.
    UnknownTerminator,
    /// A syntax-tree shape the code generator does not lower.
    UnsupportedNode,
    /// A second declaration marked as the top module.
    DuplicateTopModule,
    /// A pointer-typed value reached the port-width computation, which is
    /// defined only for pointer depth zero.
    PointerWidthUnsupported,
}

/// A fatal failure: its kind, where it arose, a second location where one
/// is relevant (the first occurrence, for a duplicate top module), and a
/// message.
#[derive(Debug, PartialEq, Eq)]
pub struct Error {
    pub kind: ErrorKind,
    pub span: Option<Span>,
    pub related: Option<Span>,
    pub msg: String,
}

} // verus!
