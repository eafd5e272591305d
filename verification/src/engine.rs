//! The traversal driver and the diagnostic reporter.
//!
//! `run` walks the tree in pre-order and visits every node exactly once.
//! At each node that was not synthesized by macro expansion and that is a
//! binary operation, the rules are evaluated in their fixed order; the
//! first match — at most one rule of the fixed set can match a node, since
//! the rules target distinct operators — yields one warning-level
//! diagnostic record. The records come back in traversal order; handing
//! them to a rendering sink is the caller's business.

use crate::ast::{BinOp, Expr, ExprKind};
use crate::rules::{
    add_zero_rule, default_rule_set, is_lit_spec, rule_matches_spec, LintRule, RuleName,
};
use vstd::prelude::*;

verus! {

/// The severity of a diagnostic record. Every rule of this engine reports
/// at warning level; analysis never stops on a finding.
#[derive(Clone, Copy, Debug, PartialEq, Eq, Structural)]
pub enum Severity {
    Warning,
}

/// One emitted finding: which rule matched, at what severity, the span of
/// the matched node, and the fixed human-readable message.
#[derive(Debug)]
pub struct Diagnostic {
    pub rule: RuleName,
    pub severity: Severity,
    pub span: crate::ast::Span,
    pub message: String,
}

/// The mathematical content of a `Diagnostic`: the same fields, with the
/// message as a sequence of characters.
pub struct DiagnosticView {
    pub rule: RuleName,
    pub severity: Severity,
    pub span: crate::ast::Span,
    pub message: Seq<char>,
}

impl View for Diagnostic {
    type V = DiagnosticView;

    open spec fn view(&self) -> DiagnosticView {
        DiagnosticView {
            rule: self.rule,
            severity: self.severity,
            span: self.span,
            message: self.message@,
        }
    }
}

/// The fixed message text every record carries.
pub open spec fn message_text() -> Seq<char> {
    "Ineffective operation"@
}

/// The record that reporting `rule` at node `e` produces.
pub open spec fn record_for(rule: LintRule, e: Expr) -> DiagnosticView {
    DiagnosticView {
        rule: rule.name,
        severity: Severity::Warning,
        span: e.span,
        message: message_text(),
    }
}

/// The views of a sequence of diagnostics, element by element.
pub open spec fn views_of(s: Seq<Diagnostic>) -> Seq<DiagnosticView> {
    s.map_values(|d: Diagnostic| d@)
}

/// The first rule at index `i` or later that matches `e`, in rule-set
/// order, if any.
pub open spec fn first_match_from(rules: Seq<LintRule>, e: Expr, i: int) -> Option<LintRule>
    decreases rules.len() - i,
{
    if i < 0 || i >= rules.len() {
        None
    } else if rule_matches_spec(rules[i], e) {
        Some(rules[i])
    } else {
        first_match_from(rules, e, i + 1)
    }
}

/// The first rule of the set that matches `e`, if any.
pub open spec fn first_match(rules: Seq<LintRule>, e: Expr) -> Option<LintRule> {
    first_match_from(rules, e, 0)
}

/// The records that node `e` itself contributes: one if the node is
/// user-written, is a binary operation and some rule matches it, none
/// otherwise. A node flagged as coming from macro expansion contributes
/// nothing, whatever its shape.
pub open spec fn node_records(rules: Seq<LintRule>, e: Expr) -> Seq<DiagnosticView> {
    if !e.from_expansion && e.kind is Binary {
        match first_match(rules, e) {
            Some(rule) => seq![record_for(rule, e)],
            None => Seq::empty(),
        }
    } else {
        Seq::empty()
    }
}

/// All records of the subtree rooted at `e`, in pre-order: the node's own
/// contribution, then its left subtree's, then its right subtree's. A
/// node synthesized by expansion is skipped, but its children are still
/// walked on their own account.
pub open spec fn records_of(rules: Seq<LintRule>, e: Expr) -> Seq<DiagnosticView>
    decreases e,
{
    node_records(rules, e) + match e.kind {
        ExprKind::Binary { op: _, lhs, rhs } => records_of(rules, *lhs) + records_of(rules, *rhs),
        _ => Seq::empty(),
    }
}

/// The number of records the subtree rooted at `e` yields: the sum, over
/// every node of the subtree counted once, of that node's own
/// contribution, which is one record or none.
pub open spec fn match_count(rules: Seq<LintRule>, e: Expr) -> nat
    decreases e,
{
    node_records(rules, e).len() + match e.kind {
        ExprKind::Binary { op: _, lhs, rhs } => match_count(rules, *lhs) + match_count(rules, *rhs),
        _ => 0,
    }
}

/// The traversal takes each node's contribution exactly once, so the
/// length of the emitted record sequence is the sum of the per-node
/// counts.
pub proof fn lemma_record_count(rules: Seq<LintRule>, e: Expr)
    ensures
        records_of(rules, e).len() == match_count(rules, e),
    decreases e,
{
    match e.kind {
        ExprKind::Binary { op: _, lhs, rhs } => {
            lemma_record_count(rules, *lhs);
            lemma_record_count(rules, *rhs);
        },
        _ => {},
    }
}

/// For one tree and one rule set the engine's output is a single
/// mathematical value: repeated runs return the same record sequence, and
/// its length is the per-node match count summed over the tree.
pub proof fn lemma_runs_agree(
    rules: Seq<LintRule>,
    e: Expr,
    d1: Seq<DiagnosticView>,
    d2: Seq<DiagnosticView>,
)
    requires
        d1 == records_of(rules, e),
        d2 == records_of(rules, e),
    ensures
        d1 == d2,
        d1.len() == match_count(rules, e),
{
    lemma_record_count(rules, e);
}

/// A user-written sum with the literal zero on either side is matched by
/// AddZero, the first rule of the fixed set, so the node yields exactly
/// one record, and that record names AddZero.
pub proof fn lemma_add_zero_matches_exactly_once(e: Expr)
    requires
        e.kind is Binary,
        e.kind->op == BinOp::Add,
        is_lit_spec(*e.kind->lhs, 0) || is_lit_spec(*e.kind->rhs, 0),
    ensures
        rule_matches_spec(add_zero_rule(), e),
        first_match(default_rule_set(), e) == Some(add_zero_rule()),
        !e.from_expansion ==> node_records(default_rule_set(), e) == seq![
            record_for(add_zero_rule(), e),
        ],
{
    assert(default_rule_set()[0] == add_zero_rule());
    assert(rule_matches_spec(add_zero_rule(), e));
}

/// A node flagged as coming from macro expansion contributes no record,
/// whatever its shape and whatever the rule set; its children are still
/// examined on their own account by the traversal.
pub proof fn lemma_expansion_suppressed(rules: Seq<LintRule>, e: Expr)
    requires
        e.from_expansion,
    ensures
        node_records(rules, e) == Seq::<DiagnosticView>::empty(),
{
}

/// Builds the diagnostic record for a match of `rule` at node `e`:
/// warning severity, the node's span, and the fixed message.
pub fn report(rule: &LintRule, e: &Expr) -> (d: Diagnostic)
    ensures
        d@ == record_for(*rule, *e),
{
    Diagnostic {
        rule: rule.name,
        severity: Severity::Warning,
        span: e.span,
        message: "Ineffective operation".to_owned(),
    }
}

/// Finds the first rule of `rules` that matches the binary node `e`.
fn first_matching_rule(rules: &Vec<LintRule>, e: &Expr) -> (r: Option<LintRule>)
    requires
        e.kind is Binary,
    ensures
        r == first_match(rules@, *e),
{
    let mut i: usize = 0;
    while i < rules.len()
        invariant
            0 <= i <= rules@.len(),
            e.kind is Binary,
            first_match(rules@, *e) == first_match_from(rules@, *e, i as int),
        decreases rules@.len() - i,
    {
        if rules[i].matches_expr(e) {
            return Some(rules[i]);
        }
        i = i + 1;
    }
    None
}

/// Evaluates every rule, in order, on the single node `e`, and appends the
/// record of the first match, if any, to `out`. A node from macro
/// expansion, or one that is not a binary operation, yields nothing.
pub fn check_node(rules: &Vec<LintRule>, e: &Expr, out: &mut Vec<Diagnostic>)
    ensures
        views_of(final(out)@) == views_of(old(out)@) + node_records(rules@, *e),
{
    if e.from_expansion {
        return;
    }
    match &e.kind {
        ExprKind::Binary { .. } => {
            match first_matching_rule(rules, e) {
                Some(rule) => {
                    let d = report(&rule, e);
                    out.push(d);
                },
                None => {},
            }
        },
        _ => {},
    }
}

/// Walks the subtree rooted at `e` in pre-order, appending to `out` the
/// record of every match found, in traversal order.
fn walk(rules: &Vec<LintRule>, e: &Expr, out: &mut Vec<Diagnostic>)
    ensures
        views_of(final(out)@) == views_of(old(out)@) + records_of(rules@, *e),
    decreases *e,
{
    check_node(rules, e, out);
    match &e.kind {
        ExprKind::Binary { op: _, lhs, rhs } => {
            walk(rules, lhs, out);
            walk(rules, rhs, out);
        },
        _ => {},
    }
}

/// Runs the engine: visits every node of the tree rooted at `root` exactly
/// once, in pre-order, evaluating the rules on each user-written binary
/// node, and returns the emitted records in traversal order. Matching is
/// pure, so the result is fully determined by the tree and the rule set.
pub fn run(rules: &Vec<LintRule>, root: &Expr) -> (diags: Vec<Diagnostic>)
    ensures
        views_of(diags@) == records_of(rules@, *root),
{
    let mut out: Vec<Diagnostic> = Vec::new();
    walk(rules, root, &mut out);
    out
}

} // verus!
