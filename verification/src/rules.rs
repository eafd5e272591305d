//! The literal matcher and the lint rules.
//!
//! A rule is pure data: a name, a target binary operator and a target
//! identity literal. One generic predicate, `LintRule::matches_expr`,
//! evaluates any rule against a node, so the three shipped rules share all
//! of their logic. A rule looks only at the node it is given and at that
//! node's two direct children; recursion into the tree belongs to the
//! traversal driver in `engine`.

use crate::ast::{BinOp, Expr, ExprKind};
use vstd::prelude::*;

verus! {

/// The identity of one of the shipped lint rules.
#[derive(Clone, Copy, Debug, PartialEq, Eq, Structural)]
pub enum RuleName {
    AddZero,
    SubZero,
    MulOne,
}

/// A lint rule: a stateless predicate given by its target operator and the
/// identity literal that makes that operator a no-op.
#[derive(Clone, Copy, Debug, PartialEq, Eq, Structural)]
pub struct LintRule {
    pub name: RuleName,
    pub op: BinOp,
    pub identity: u128,
}

/// Holds exactly when `e` is an integer literal with value `v`.
pub open spec fn is_lit_spec(e: Expr, v: u128) -> bool {
    e.kind matches ExprKind::Lit { value } && value == v
}

/// Holds exactly when `e` is a binary node carrying the rule's operator
/// with the rule's identity literal as its left or right operand.
pub open spec fn rule_matches_spec(rule: LintRule, e: Expr) -> bool {
    e.kind matches ExprKind::Binary { op, lhs, rhs }
        && op == rule.op
        && (is_lit_spec(*lhs, rule.identity) || is_lit_spec(*rhs, rule.identity))
}

/// Tests whether `e` is exactly an integer literal with value `v`. Nothing
/// is evaluated: a compound expression that would fold to `v` is not a
/// literal and does not match.
pub fn is_int_literal(e: &Expr, v: u128) -> (r: bool)
    ensures
        r == is_lit_spec(*e, v),
{
    match &e.kind {
        ExprKind::Lit { value } => *value == v,
        _ => false,
    }
}

/// Tests whether `e` is the integer literal zero.
pub fn is_zero(e: &Expr) -> (r: bool)
    ensures
        r == is_lit_spec(*e, 0),
{
    is_int_literal(e, 0)
}

/// Tests whether `e` is the integer literal one.
pub fn is_one(e: &Expr) -> (r: bool)
    ensures
        r == is_lit_spec(*e, 1),
{
    is_int_literal(e, 1)
}

impl LintRule {
    /// Evaluates the rule on one binary node. The caller (the traversal
    /// driver) only invokes rules on binary nodes.
    pub fn matches_expr(&self, e: &Expr) -> (r: bool)
        requires
            e.kind is Binary,
        ensures
            r == rule_matches_spec(*self, *e),
    {
        match &e.kind {
            ExprKind::Binary { op, lhs, rhs } => {
                *op == self.op
                    && (is_int_literal(lhs, self.identity) || is_int_literal(rhs, self.identity))
            },
            _ => false,
        }
    }
}

/// The rule flagging `x + 0` and `0 + x`.
pub open spec fn add_zero_rule() -> LintRule {
    LintRule { name: RuleName::AddZero, op: BinOp::Add, identity: 0 }
}

/// The rule flagging `x - 0` and `0 - x`. Flagging zero on the left is a
/// documented asymmetry: `0 - x` is a negation, not a no-op, but the rule
/// treats both sides alike.
pub open spec fn sub_zero_rule() -> LintRule {
    LintRule { name: RuleName::SubZero, op: BinOp::Sub, identity: 0 }
}

/// The rule flagging `x * 1` and `1 * x`.
pub open spec fn mul_one_rule() -> LintRule {
    LintRule { name: RuleName::MulOne, op: BinOp::Mul, identity: 1 }
}

/// The fixed rule set of this engine, in the order rules are evaluated.
pub open spec fn default_rule_set() -> Seq<LintRule> {
    seq![add_zero_rule(), sub_zero_rule(), mul_one_rule()]
}

/// For any nonzero literal value `v`, AddZero does not match a sum with
/// `v` on one side unless the other side is the literal zero, and
/// symmetrically. No value is evaluated: only the exact literal zero
/// counts.
pub proof fn lemma_add_zero_needs_zero_operand(e: Expr, v: u128)
    requires
        v != 0,
        e.kind is Binary,
        e.kind->op == BinOp::Add,
    ensures
        is_lit_spec(*e.kind->lhs, v) ==> (rule_matches_spec(add_zero_rule(), e) <==> is_lit_spec(
            *e.kind->rhs,
            0,
        )),
        is_lit_spec(*e.kind->rhs, v) ==> (rule_matches_spec(add_zero_rule(), e) <==> is_lit_spec(
            *e.kind->lhs,
            0,
        )),
{
}

/// SubZero flags the literal zero on either side of a difference: `x - 0`
/// and also `0 - x`, though the latter is a negation rather than a no-op —
/// the documented asymmetry of this rule set.
pub proof fn lemma_sub_zero_flags_both_sides(e: Expr)
    requires
        e.kind is Binary,
        e.kind->op == BinOp::Sub,
    ensures
        is_lit_spec(*e.kind->lhs, 0) ==> rule_matches_spec(sub_zero_rule(), e),
        is_lit_spec(*e.kind->rhs, 0) ==> rule_matches_spec(sub_zero_rule(), e),
{
}

/// MulOne flags the literal one on either side of a product, and a product
/// with the literal zero on one side is not flagged unless the other side
/// is the literal one, which is outside this rule set's concern with zero.
pub proof fn lemma_mul_one_flags_one_not_zero(e: Expr)
    requires
        e.kind is Binary,
        e.kind->op == BinOp::Mul,
    ensures
        is_lit_spec(*e.kind->lhs, 1) ==> rule_matches_spec(mul_one_rule(), e),
        is_lit_spec(*e.kind->rhs, 1) ==> rule_matches_spec(mul_one_rule(), e),
        is_lit_spec(*e.kind->rhs, 0) && !is_lit_spec(*e.kind->lhs, 1) ==> !rule_matches_spec(
            mul_one_rule(),
            e,
        ),
        is_lit_spec(*e.kind->lhs, 0) && !is_lit_spec(*e.kind->rhs, 1) ==> !rule_matches_spec(
            mul_one_rule(),
            e,
        ),
{
}

/// At most one rule of the fixed set matches any given node: the three
/// rules target three distinct operators, and a binary node carries
/// exactly one.
pub proof fn lemma_rules_mutually_exclusive(e: Expr, i: int, j: int)
    requires
        0 <= i < default_rule_set().len(),
        0 <= j < default_rule_set().len(),
        i != j,
        rule_matches_spec(default_rule_set()[i], e),
    ensures
        !rule_matches_spec(default_rule_set()[j], e),
{
    assert(default_rule_set()[0] == add_zero_rule());
    assert(default_rule_set()[1] == sub_zero_rule());
    assert(default_rule_set()[2] == mul_one_rule());
}

/// Builds the fixed rule set. It is chosen once, before a run, and never
/// changes during one.
pub fn default_rules() -> (rules: Vec<LintRule>)
    ensures
        rules@ == default_rule_set(),
{
    let mut rules: Vec<LintRule> = Vec::new();
    rules.push(LintRule { name: RuleName::AddZero, op: BinOp::Add, identity: 0 });
    rules.push(LintRule { name: RuleName::SubZero, op: BinOp::Sub, identity: 0 });
    rules.push(LintRule { name: RuleName::MulOne, op: BinOp::Mul, identity: 1 });
    rules
}

} // verus!
