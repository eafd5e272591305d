use minippy::ast::{BinOp, Expr, Span};
use minippy::engine::{report, run, Diagnostic, Severity};
use minippy::rules::{default_rules, RuleName};

fn sp(lo: usize, hi: usize) -> Span {
    Span { lo, hi }
}

fn var(lo: usize, hi: usize) -> Expr {
    Expr::other(sp(lo, hi), false)
}

fn lit(value: u128, lo: usize, hi: usize) -> Expr {
    Expr::lit(value, sp(lo, hi), false)
}

fn bin(op: BinOp, lhs: Expr, rhs: Expr, lo: usize, hi: usize) -> Expr {
    Expr::binary(op, lhs, rhs, sp(lo, hi), false)
}

fn expect_one(diags: &[Diagnostic], rule: RuleName, span: Span) {
    assert_eq!(diags.len(), 1);
    assert_eq!(diags[0].rule, rule);
    assert_eq!(diags[0].severity, Severity::Warning);
    assert_eq!(diags[0].span, span);
    assert_eq!(diags[0].message, "Ineffective operation");
}

#[test]
fn a_plus_zero_yields_one_add_zero_record() {
    // a + 0
    let root = bin(BinOp::Add, var(0, 1), lit(0, 4, 5), 0, 5);
    let diags = run(&default_rules(), &root);
    expect_one(&diags, RuleName::AddZero, sp(0, 5));
}

#[test]
fn zero_plus_a_yields_one_add_zero_record() {
    // 0 + a
    let root = bin(BinOp::Add, lit(0, 0, 1), var(4, 5), 0, 5);
    let diags = run(&default_rules(), &root);
    expect_one(&diags, RuleName::AddZero, sp(0, 5));
}

#[test]
fn zero_minus_a_yields_one_sub_zero_record() {
    // 0 - a: flagged even though it is a negation, not a no-op; the rule
    // set treats both sides of a difference alike.
    let root = bin(BinOp::Sub, lit(0, 0, 1), var(4, 5), 0, 5);
    let diags = run(&default_rules(), &root);
    expect_one(&diags, RuleName::SubZero, sp(0, 5));
}

#[test]
fn a_minus_zero_yields_one_sub_zero_record() {
    // a - 0
    let root = bin(BinOp::Sub, var(0, 1), lit(0, 4, 5), 0, 5);
    let diags = run(&default_rules(), &root);
    expect_one(&diags, RuleName::SubZero, sp(0, 5));
}

#[test]
fn a_times_one_times_one_yields_two_mul_one_records() {
    // (a * 1) * 1: both binary nodes match MulOne, outer first (pre-order).
    let inner = bin(BinOp::Mul, var(1, 2), lit(1, 5, 6), 1, 6);
    let root = bin(BinOp::Mul, inner, lit(1, 10, 11), 0, 11);
    let diags = run(&default_rules(), &root);
    assert_eq!(diags.len(), 2);
    assert_eq!(diags[0].rule, RuleName::MulOne);
    assert_eq!(diags[0].span, sp(0, 11));
    assert_eq!(diags[1].rule, RuleName::MulOne);
    assert_eq!(diags[1].span, sp(1, 6));
}

#[test]
fn one_times_a_yields_one_mul_one_record() {
    // 1 * a
    let root = bin(BinOp::Mul, lit(1, 0, 1), var(4, 5), 0, 5);
    let diags = run(&default_rules(), &root);
    expect_one(&diags, RuleName::MulOne, sp(0, 5));
}

#[test]
fn a_times_zero_yields_no_records() {
    // a * 0 is outside this rule set: only the literal one is an identity
    // for multiplication.
    let root = bin(BinOp::Mul, var(0, 1), lit(0, 4, 5), 0, 5);
    let diags = run(&default_rules(), &root);
    assert_eq!(diags.len(), 0);
}

#[test]
fn a_plus_b_yields_no_records() {
    // a + b
    let root = bin(BinOp::Add, var(0, 1), var(4, 5), 0, 5);
    let diags = run(&default_rules(), &root);
    assert_eq!(diags.len(), 0);
}

#[test]
fn nonzero_literal_plus_var_yields_no_records() {
    // 5 + a: a nonzero literal operand is not an identity.
    let root = bin(BinOp::Add, lit(5, 0, 1), var(4, 5), 0, 5);
    let diags = run(&default_rules(), &root);
    assert_eq!(diags.len(), 0);
}

#[test]
fn expanded_x_plus_zero_yields_no_records() {
    // A macro-generated x + 0: would match AddZero, but its provenance
    // flag suppresses the record.
    let root = Expr::binary(BinOp::Add, var(0, 1), lit(0, 4, 5), sp(0, 5), true);
    let diags = run(&default_rules(), &root);
    assert_eq!(diags.len(), 0);
}

#[test]
fn children_of_expanded_node_are_still_visited() {
    // The expanded root itself is skipped, but its user-written child
    // (a * 1) is still walked and flagged.
    let inner = bin(BinOp::Mul, var(1, 2), lit(1, 5, 6), 1, 6);
    let root = Expr::binary(BinOp::Add, inner, lit(0, 10, 11), sp(0, 11), true);
    let diags = run(&default_rules(), &root);
    expect_one(&diags, RuleName::MulOne, sp(1, 6));
}

#[test]
fn other_operator_with_zero_yields_no_records() {
    // a / 0 (any untargeted operator): no rule binds to it.
    let root = bin(BinOp::OtherOp, var(0, 1), lit(0, 4, 5), 0, 5);
    let diags = run(&default_rules(), &root);
    assert_eq!(diags.len(), 0);
}

#[test]
fn lone_literal_or_other_node_yields_no_records() {
    assert_eq!(run(&default_rules(), &lit(0, 0, 1)).len(), 0);
    assert_eq!(run(&default_rules(), &var(0, 1)).len(), 0);
}

#[test]
fn repeated_runs_agree() {
    // One tree, one rule set: the output is deterministic across runs.
    let inner = bin(BinOp::Mul, var(1, 2), lit(1, 5, 6), 1, 6);
    let root = bin(BinOp::Add, inner, lit(0, 10, 11), 0, 11);
    let rules = default_rules();
    let first = run(&rules, &root);
    let second = run(&rules, &root);
    assert_eq!(first.len(), second.len());
    for (a, b) in first.iter().zip(second.iter()) {
        assert_eq!(a.rule, b.rule);
        assert_eq!(a.severity, b.severity);
        assert_eq!(a.span, b.span);
        assert_eq!(a.message, b.message);
    }
}

#[test]
fn report_copies_span_and_fixes_message() {
    let rules = default_rules();
    let node = bin(BinOp::Mul, var(3, 4), lit(1, 7, 8), 3, 8);
    let d = report(&rules[2], &node);
    assert_eq!(d.rule, RuleName::MulOne);
    assert_eq!(d.severity, Severity::Warning);
    assert_eq!(d.span, sp(3, 8));
    assert_eq!(d.message, "Ineffective operation");
}

#[test]
fn deep_tree_is_walked_fully() {
    // ((a + 0) - b) * 1: the root and the innermost sum both match.
    let sum = bin(BinOp::Add, var(2, 3), lit(0, 6, 7), 2, 7);
    let diff = bin(BinOp::Sub, sum, var(11, 12), 1, 12);
    let root = bin(BinOp::Mul, diff, lit(1, 16, 17), 0, 17);
    let diags = run(&default_rules(), &root);
    assert_eq!(diags.len(), 2);
    assert_eq!(diags[0].rule, RuleName::MulOne);
    assert_eq!(diags[0].span, sp(0, 17));
    assert_eq!(diags[1].rule, RuleName::AddZero);
    assert_eq!(diags[1].span, sp(2, 7));
}
