//! A small ahead-of-time compiler pipeline for a minimal statically typed
//! language: a recursive-descent parser producing a syntax tree, a
//! tree-walking interpreter over that tree, and a type-directed code
//! generator lowering the tree to a static-single-assignment style
//! intermediate representation, rendered as text for an external backend.
//! A reference evaluator for the integer fragment of that representation
//! grounds the laws tying the interpreter and the generated code together.
//!
//! Every executable entry point is specified against a mathematical model
//! (the `sp_`- and `cg_`-prefixed functions and the ghost mirrors of the
//! data types) and proved to match it, so parsing, interpretation,
//! compilation and rendering are all pure functions of their inputs:
//! nothing is shared between calls, and identical inputs always give
//! identical results.

pub mod ast;
pub mod codegen;
pub mod interp;
pub mod ir;
pub mod ireval;
pub mod laws;
pub mod parser;
pub mod render;
pub mod runtime;
pub mod util;
