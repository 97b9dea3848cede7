use nu_pest::ast::{Expr, Expression, LowerError, Operator, Span, Type};
use nu_pest::cst::CstNode;
use nu_pest::lower::convert_to_nu_expression;
use nu_pest::rule::Rule;

fn leaf(rule: Rule, text: &str, start: usize) -> CstNode {
    CstNode {
        rule,
        span: Span { start, end: start + text.len() },
        text: text.to_string(),
        children: vec![],
    }
}

fn node(rule: Rule, text: &str, start: usize, children: Vec<CstNode>) -> CstNode {
    CstNode {
        rule,
        span: Span { start, end: start + text.len() },
        text: text.to_string(),
        children,
    }
}

fn int_of(e: &Expression) -> i64 {
    match &e.expr {
        Expr::Int(v) => *v,
        other => panic!("not an integer: {:?}", other),
    }
}

fn op_of(e: &Expression) -> Operator {
    match &e.expr {
        Expr::Operator(o) => *o,
        other => panic!("not an operator: {:?}", other),
    }
}

#[test]
fn integer_literal_keeps_value_and_span() {
    let e = convert_to_nu_expression(&leaf(Rule::integer, "42", 3)).unwrap();
    assert_eq!(int_of(&e), 42);
    assert_eq!(e.span, Span { start: 3, end: 5 });
    assert_eq!(e.ty, Type::Any);
}

#[test]
fn decimal_integer_literals_with_signs_and_limits() {
    let e = convert_to_nu_expression(&leaf(Rule::dec_int, "-7", 0)).unwrap();
    assert_eq!(int_of(&e), -7);
    let e = convert_to_nu_expression(&leaf(Rule::dec_int, "+15", 0)).unwrap();
    assert_eq!(int_of(&e), 15);
    let e = convert_to_nu_expression(&leaf(Rule::dec_int, "9223372036854775807", 0)).unwrap();
    assert_eq!(int_of(&e), i64::MAX);
    let e = convert_to_nu_expression(&leaf(Rule::dec_int, "-9223372036854775808", 0)).unwrap();
    assert_eq!(int_of(&e), i64::MIN);
}

#[test]
fn integer_literal_errors() {
    for t in ["9223372036854775808", "", "-", "+", "1a", "--1", "1.5"] {
        match convert_to_nu_expression(&leaf(Rule::integer, t, 0)) {
            Err(LowerError::LiteralParse(s)) => assert_eq!(s, t),
            other => panic!("unexpected for {:?}: {:?}", t, other),
        }
    }
}

#[test]
fn single_child_chain_is_transparent() {
    let tree = node(
        Rule::plus_expr,
        "5",
        0,
        vec![node(Rule::mul_expr, "5", 0, vec![node(Rule::pow_expr, "5", 0, vec![leaf(Rule::integer, "5", 0)])])],
    );
    let e = convert_to_nu_expression(&tree).unwrap();
    assert_eq!(int_of(&e), 5);
}

#[test]
fn three_child_chain_spans_the_whole_node() {
    let tree = node(
        Rule::plus_expr,
        "1 + 2",
        10,
        vec![leaf(Rule::integer, "1", 10), leaf(Rule::plus_op, "+", 12), leaf(Rule::integer, "2", 14)],
    );
    let e = convert_to_nu_expression(&tree).unwrap();
    assert_eq!(e.span, Span { start: 10, end: 15 });
    assert_eq!(e.ty, Type::Any);
    match &e.expr {
        Expr::BinaryOp(l, o, r) => {
            assert_eq!(int_of(l), 1);
            assert_eq!(op_of(o), Operator::Plus);
            assert_eq!(o.span, Span { start: 12, end: 13 });
            assert_eq!(int_of(r), 2);
        }
        other => panic!("not a binary operation: {:?}", other),
    }
}

#[test]
fn known_operators_lower() {
    let cases = [
        (Rule::plus_op, "+", Operator::Plus),
        (Rule::plus_op, "-", Operator::Minus),
        (Rule::mul_op, "*", Operator::Multiply),
        (Rule::mul_op, "/", Operator::Divide),
        (Rule::mul_op, "//", Operator::FloorDivision),
    ];
    for (rule, t, op) in cases {
        let e = convert_to_nu_expression(&leaf(rule, t, 0)).unwrap();
        assert_eq!(op_of(&e), op);
    }
}

#[test]
fn unknown_operators_are_refused() {
    let cases = [(Rule::plus_op, "*"), (Rule::plus_op, "++"), (Rule::mul_op, "+"), (Rule::mul_op, "%"), (Rule::mul_op, "///")];
    for (rule, t) in cases {
        match convert_to_nu_expression(&leaf(rule, t, 0)) {
            Err(LowerError::UnsupportedOperator(s)) => assert_eq!(s, t),
            other => panic!("unexpected for {:?}: {:?}", t, other),
        }
    }
}

#[test]
fn malformed_chain_arity() {
    for n in [0usize, 2, 4, 5] {
        for rule in [Rule::plus_expr, Rule::mul_expr, Rule::pow_expr] {
            let kids: Vec<CstNode> = (0..n).map(|i| leaf(Rule::integer, "1", i)).collect();
            let tree = node(rule, "11111", 0, kids);
            assert!(matches!(convert_to_nu_expression(&tree), Err(LowerError::MalformedArity)));
        }
    }
}

#[test]
fn child_errors_propagate() {
    let tree = node(
        Rule::mul_expr,
        "1 % 2",
        0,
        vec![leaf(Rule::integer, "1", 0), leaf(Rule::mul_op, "%", 2), leaf(Rule::integer, "2", 4)],
    );
    assert!(matches!(convert_to_nu_expression(&tree), Err(LowerError::UnsupportedOperator(_))));
}

#[test]
fn float_sum_end_to_end() {
    let tree = node(
        Rule::plus_expr,
        "10.4 + 9.6",
        0,
        vec![
            node(Rule::mul_expr, "10.4", 0, vec![node(Rule::pow_expr, "10.4", 0, vec![leaf(Rule::float, "10.4", 0)])]),
            leaf(Rule::plus_op, "+", 5),
            node(Rule::mul_expr, "9.6", 7, vec![node(Rule::pow_expr, "9.6", 7, vec![leaf(Rule::float, "9.6", 7)])]),
        ],
    );
    let e = convert_to_nu_expression(&tree).unwrap();
    assert_eq!(e.span, Span { start: 0, end: 10 });
    match &e.expr {
        Expr::BinaryOp(l, o, r) => {
            assert!(matches!(&l.expr, Expr::Float(t) if t == "10.4"));
            assert_eq!(op_of(o), Operator::Plus);
            assert!(matches!(&r.expr, Expr::Float(t) if t == "9.6"));
        }
        other => panic!("not a binary operation: {:?}", other),
    }
}

#[test]
fn strings_pass_through_wrappers() {
    let tree = node(
        Rule::string,
        "\"a\\nb\"",
        0,
        vec![node(Rule::double_quote_string, "\"a\\nb\"", 0, vec![leaf(Rule::double_quote_string_inner, "a\\nb", 1)])],
    );
    let e = convert_to_nu_expression(&tree).unwrap();
    assert_eq!(e.ty, Type::String);
    assert_eq!(e.span, Span { start: 1, end: 5 });
    assert!(matches!(&e.expr, Expr::String(t) if t == "a\\nb"));
}

#[test]
fn incomplete_strings_are_refused() {
    let empty = node(Rule::double_quote_string, "\"\"", 0, vec![]);
    assert!(matches!(convert_to_nu_expression(&empty), Err(LowerError::IncompleteString(t)) if t == "\"\""));
    let two = node(Rule::string, "ab", 0, vec![leaf(Rule::double_quote_string_inner, "a", 0), leaf(Rule::double_quote_string_inner, "b", 1)]);
    assert!(matches!(convert_to_nu_expression(&two), Err(LowerError::IncompleteString(_))));
}

#[test]
fn unhandled_rules_are_errors() {
    let tree = node(Rule::let_command, "let a = 1 + 2", 0, vec![leaf(Rule::ident, "a", 4)]);
    assert!(matches!(convert_to_nu_expression(&tree), Err(LowerError::UnsupportedRule(Rule::let_command))));
}

fn let_tree() -> CstNode {
    // let a = 1 + 2
    node(
        Rule::program,
        "let a = 1 + 2",
        0,
        vec![node(
            Rule::let_command,
            "let a = 1 + 2",
            0,
            vec![
                leaf(Rule::ident, "a", 4),
                node(
                    Rule::plus_expr,
                    "1 + 2",
                    8,
                    vec![leaf(Rule::integer, "1", 8), leaf(Rule::plus_op, "+", 10), leaf(Rule::integer, "2", 12)],
                ),
            ],
        )],
    )
}

fn check_nested(n: &CstNode) {
    for c in &n.children {
        assert!(c.span.start >= n.span.start && c.span.end <= n.span.end);
        check_nested(c);
    }
}

#[test]
fn diagnostic_lines_for_let() {
    let tree = let_tree();
    check_nested(&tree);
    assert!(nu_pest::cst::is_well_nested(&tree));
    let lines = nu_pest::diagnostics::print_pair(&tree, 0);
    let got: Vec<(usize, Rule, &str, usize, usize)> =
        lines.iter().map(|l| (l.indent, l.rule, l.text.as_str(), l.span.start, l.span.end)).collect();
    assert_eq!(
        got,
        vec![
            (0, Rule::program, "let a = 1 + 2", 0, 13),
            (2, Rule::let_command, "let a = 1 + 2", 0, 13),
            (4, Rule::ident, "a", 4, 5),
            (4, Rule::plus_expr, "1 + 2", 8, 13),
            (6, Rule::integer, "1", 8, 9),
            (6, Rule::plus_op, "+", 10, 11),
            (6, Rule::integer, "2", 12, 13),
        ]
    );
    let shifted = nu_pest::diagnostics::print_pair(&tree, 3);
    assert_eq!(shifted.iter().map(|l| l.indent).collect::<Vec<_>>(), vec![3, 5, 7, 7, 9, 9, 9]);
}

#[test]
fn let_statement_is_not_lowered() {
    assert!(matches!(convert_to_nu_expression(&let_tree()), Err(LowerError::UnsupportedRule(Rule::program))));
}

#[test]
fn misplaced_children_are_detected() {
    let outside = node(Rule::plus_expr, "1", 5, vec![leaf(Rule::integer, "1", 4)]);
    assert!(!nu_pest::cst::is_well_nested(&outside));
    let unordered = node(Rule::plus_expr, "1+2", 0, vec![leaf(Rule::integer, "2", 2), leaf(Rule::integer, "1", 0)]);
    assert!(!nu_pest::cst::is_well_nested(&unordered));
    let deep = node(Rule::program, "1+2", 0, vec![node(Rule::plus_expr, "1+2", 0, vec![leaf(Rule::integer, "1", 7)])]);
    assert!(!nu_pest::cst::is_well_nested(&deep));
    let reversed = CstNode { rule: Rule::integer, span: Span { start: 3, end: 2 }, text: String::new(), children: vec![] };
    assert!(!nu_pest::cst::is_well_nested(&reversed));
    assert!(nu_pest::cst::is_well_nested(&leaf(Rule::integer, "7", 0)));
}
