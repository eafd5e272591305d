//! A small lint engine over an expression tree.
//!
//! The engine walks a read-only, fully resolved expression tree and flags
//! arithmetic sub-expressions that are algebraic no-ops: adding or
//! subtracting the literal zero, and multiplying by the literal one.
//! Findings are returned as warning-level diagnostic records that carry the
//! offending node's source span; rendering them is the caller's business.

pub mod ast;
pub mod engine;
pub mod rules;
