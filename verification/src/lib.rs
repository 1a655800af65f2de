//! A small hardware-description frontend: a C-like source language of
//! constant declarations and typed functions is parsed into a typed,
//! span-carrying syntax tree, and a restricted subset of that tree is
//! lowered into register-transfer-level module text.
//!
//! The crate exposes four entry points: `parser::parse` builds the tree
//! from source text, `gen::generate_verilog` lowers it to module text,
//! and `codec::serialize` / `codec::deserialize` carry it through a
//! lossless binary interchange form. Every failure is a structured
//! `error::Error`; nothing here aborts the process, and a failed run
//! yields no partial output. The guarantees that hold across these parts
//! are stated and proved in `laws`.

// the syntax tree and its source locations
pub mod span;
pub mod types;
pub mod expr;
pub mod stmt;
pub mod defs;
pub mod program;

// the pipeline around it
pub mod error;
pub mod lexer;
pub mod parser;
pub mod gen;
pub mod codec;
pub mod laws;

// shared string helpers
pub mod text;
