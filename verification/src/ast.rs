//! The expression-tree model the lint engine reads.
//!
//! The tree is produced upstream (parsing and semantic resolution are not
//! this crate's job) and is read-only during analysis. The shape of the
//! types makes the structural invariants hold by construction: a binary
//! node always owns exactly two children, a literal node owns none, and
//! ownership is strict, so the tree has no sharing and no cycles.

use vstd::prelude::*;

verus! {

/// A source location: a half-open byte range in the original source text.
#[derive(Clone, Copy, Debug, PartialEq, Eq, Structural)]
pub struct Span {
    pub lo: usize,
    pub hi: usize,
}

/// The binary-operator tag of a binary node. The rules in this crate only
/// target `Add`, `Sub` and `Mul`; every other operator is `OtherOp`.
#[derive(Clone, Copy, Debug, PartialEq, Eq, Structural)]
pub enum BinOp {
    Add,
    Sub,
    Mul,
    OtherOp,
}

/// The discriminant of an expression node: an integer literal with its
/// resolved value, a binary operation with its two owned children, or any
/// other expression, which the rules never look inside.
#[derive(Debug)]
pub enum ExprKind {
    Lit { value: u128 },
    Binary { op: BinOp, lhs: Box<Expr>, rhs: Box<Expr> },
    Other,
}

/// One expression node: its kind, its source span, and a provenance flag
/// that is true when the node was synthesized by macro or template
/// expansion rather than written by the user.
#[derive(Debug)]
pub struct Expr {
    pub kind: ExprKind,
    pub span: Span,
    pub from_expansion: bool,
}

impl Expr {
    /// Builds an integer-literal node.
    pub fn lit(value: u128, span: Span, from_expansion: bool) -> (e: Expr)
        ensures
            e.kind matches ExprKind::Lit { value: v } && v == value,
            e.span == span,
            e.from_expansion == from_expansion,
    {
        Expr { kind: ExprKind::Lit { value }, span, from_expansion }
    }

    /// Builds a binary node owning its two children.
    pub fn binary(op: BinOp, lhs: Expr, rhs: Expr, span: Span, from_expansion: bool) -> (e: Expr)
        ensures
            e.kind matches ExprKind::Binary { op: o, lhs: l, rhs: r }
                && o == op && *l == lhs && *r == rhs,
            e.span == span,
            e.from_expansion == from_expansion,
    {
        Expr {
            kind: ExprKind::Binary { op, lhs: Box::new(lhs), rhs: Box::new(rhs) },
            span,
            from_expansion,
        }
    }

    /// Builds a node of any other expression kind.
    pub fn other(span: Span, from_expansion: bool) -> (e: Expr)
        ensures
            e.kind is Other,
            e.span == span,
            e.from_expansion == from_expansion,
    {
        Expr { kind: ExprKind::Other, span, from_expansion }
    }
}

} // verus!
