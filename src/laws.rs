use vstd::prelude::*;
use crate::ast::{ExprModel, LowerErrorModel};
use crate::ast::Span;
use crate::cst::{children_placed, forest_nested, span_within, well_nested, CstNode};
use crate::diagnostics::{forest_lines, line_of, tree_lines, DiagLineModel};
use crate::lower::{any_node, is_chain_rule, lower};
use crate::rule::Rule;
use crate::text::{all_digits, digits_value};

verus! {

/// An integer literal node whose text is a run of decimal digits that fits in an
/// `i64` lowers to that integer, carrying the node's own span.
pub proof fn law_integer_literal(node: CstNode)
    requires
        node.rule == Rule::integer || node.rule == Rule::dec_int,
        all_digits(node.text@),
        digits_value(node.text@) <= i64::MAX,
    ensures
        lower(node) == Ok::<_, LowerErrorModel>(
            any_node(ExprModel::Int(digits_value(node.text@) as i64), node.span),
        ),
{
    let t = node.text@;
    assert(t[0] != '-' && t[0] != '+') by {
        assert(crate::text::is_digit(t[0]));
    }
}

/// A precedence-tier node with a single child lowers exactly as that child does:
/// no operator node is wrapped around it.
pub proof fn law_chain_single_child(node: CstNode)
    requires
        is_chain_rule(node.rule),
        node.children@.len() == 1,
    ensures
        lower(node) == lower(node.children@[0]),
{
}

/// A precedence-tier node `[left, op, right]` lowers to the binary operation of the
/// lowered parts, spanning the whole node rather than the operator.
pub proof fn law_chain_three_children(node: CstNode)
    requires
        is_chain_rule(node.rule),
        node.children@.len() == 3,
        lower(node.children@[0]) is Ok,
        lower(node.children@[1]) is Ok,
        lower(node.children@[2]) is Ok,
    ensures
        lower(node) == Ok::<_, LowerErrorModel>(
            any_node(
                ExprModel::Binary(
                    Box::new(lower(node.children@[0])->Ok_0),
                    Box::new(lower(node.children@[1])->Ok_0),
                    Box::new(lower(node.children@[2])->Ok_0),
                ),
                node.span,
            ),
        ),
        lower(node)->Ok_0.span == node.span,
{
}

/// Additive operator text is refused exactly when it is neither `+` nor `-`, and then
/// always with `UnsupportedOperator`.
pub proof fn law_additive_operators(node: CstNode)
    requires
        node.rule == Rule::plus_op,
    ensures
        (node.text@ == "+"@ || node.text@ == "-"@) ==> lower(node) is Ok,
        !(node.text@ == "+"@ || node.text@ == "-"@) ==> lower(node) == Err::<
            crate::ast::ExpressionModel,
            _,
        >(LowerErrorModel::UnsupportedOperator(node.text@)),
{
}

/// Multiplicative operator text is refused exactly when it is none of `*`, `/`, `//`,
/// and then always with `UnsupportedOperator`.
pub proof fn law_multiplicative_operators(node: CstNode)
    requires
        node.rule == Rule::mul_op,
    ensures
        (node.text@ == "*"@ || node.text@ == "/"@ || node.text@ == "//"@) ==> lower(node) is Ok,
        !(node.text@ == "*"@ || node.text@ == "/"@ || node.text@ == "//"@) ==> lower(node)
            == Err::<crate::ast::ExpressionModel, _>(
            LowerErrorModel::UnsupportedOperator(node.text@),
        ),
{
}

/// A precedence-tier node with neither one nor three children lowers to
/// `MalformedArity`, whatever its children are.
pub proof fn law_chain_malformed_arity(node: CstNode)
    requires
        is_chain_rule(node.rule),
        node.children@.len() != 1,
        node.children@.len() != 3,
    ensures
        lower(node) == Err::<crate::ast::ExpressionModel, _>(LowerErrorModel::MalformedArity),
{
}

proof fn lemma_forest_lines_within(nodes: Seq<CstNode>, indent: nat, outer: Span)
    requires
        forest_nested(nodes),
        forall|i: int| 0 <= i < nodes.len() ==> span_within(#[trigger] nodes[i].span, outer),
    ensures
        forall|k: int|
            0 <= k < forest_lines(nodes, indent).len() ==> span_within(
                (#[trigger] forest_lines(nodes, indent)[k]).span,
                outer,
            ) && forest_lines(nodes, indent)[k].indent >= indent,
    decreases nodes,
{
    if nodes.len() > 0 {
        let first = nodes[0];
        let kids = first.children@;
        let rest = nodes.drop_first();
        assert(children_placed(first));
        assert forall|i: int| 0 <= i < kids.len() implies span_within(#[trigger] kids[i].span, outer) by {
            assert(span_within(kids[i].span, first.span));
        }
        lemma_forest_lines_within(kids, indent + 2, outer);
        assert forall|i: int| 0 <= i < rest.len() implies span_within(#[trigger] rest[i].span, outer) by {
            assert(rest[i] == nodes[i + 1]);
        }
        lemma_forest_lines_within(rest, indent, outer);
        let head: Seq<DiagLineModel> = seq![line_of(first, indent)];
        let below = forest_lines(kids, indent + 2);
        let beside = forest_lines(rest, indent);
        assert(forest_lines(nodes, indent) == head + below + beside);
        assert forall|k: int| 0 <= k < forest_lines(nodes, indent).len() implies span_within(
            (#[trigger] forest_lines(nodes, indent)[k]).span,
            outer,
        ) && forest_lines(nodes, indent)[k].indent >= indent by {
            if k == 0 {
            } else if k < 1 + below.len() {
                assert(forest_lines(nodes, indent)[k] == below[k - 1]);
            } else {
                assert(forest_lines(nodes, indent)[k] == beside[k - 1 - below.len()]);
            }
        }
    }
}

/// The rendering of a tree that a parser gives starts with the root at the chosen
/// indentation, and every line shows a span inside the root's span, indented no less
/// than the root.
pub proof fn law_rendering_stays_within_root(node: CstNode, indent: nat)
    requires
        well_nested(node),
    ensures
        tree_lines(node, indent).len() >= 1,
        tree_lines(node, indent)[0] == line_of(node, indent),
        forall|k: int|
            0 <= k < tree_lines(node, indent).len() ==> span_within(
                (#[trigger] tree_lines(node, indent)[k]).span,
                node.span,
            ) && tree_lines(node, indent)[k].indent >= indent,
{
    let one = seq![node];
    assert(one[0] == node);
    assert(children_placed(node));
    assert forall|i: int| 0 <= i < one.len() implies span_within(#[trigger] one[i].span, node.span) by {
    }
    lemma_forest_lines_within(one, indent, node.span);
}

} // verus!
