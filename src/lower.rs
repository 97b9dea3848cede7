use vstd::prelude::*;
use crate::ast::{
    result_model, Expr, ExprModel, Expression, ExpressionModel, LowerError, LowerErrorModel,
    Operator, Span, Type,
};
use crate::cst::CstNode;
use crate::rule::Rule;
use crate::text::{i64_of_text, parse_i64, str_eq};

verus! {

/// Whether a rule is one precedence tier of a binary-operator chain.
pub open spec fn is_chain_rule(r: Rule) -> bool {
    r == Rule::plus_expr || r == Rule::mul_expr || r == Rule::pow_expr
}

/// A model node with the type `Any`.
pub open spec fn any_node(expr: ExprModel, span: Span) -> ExpressionModel {
    ExpressionModel { expr, span, ty: Type::Any }
}

/// The operator that additive-tier text stands for.
pub open spec fn additive_op(t: Seq<char>) -> Option<Operator> {
    if t == "+"@ {
        Some(Operator::Plus)
    } else if t == "-"@ {
        Some(Operator::Minus)
    } else {
        None
    }
}

/// The operator that multiplicative-tier text stands for.
pub open spec fn multiplicative_op(t: Seq<char>) -> Option<Operator> {
    if t == "*"@ {
        Some(Operator::Multiply)
    } else if t == "/"@ {
        Some(Operator::Divide)
    } else if t == "//"@ {
        Some(Operator::FloorDivision)
    } else {
        None
    }
}

/// An operator node, or the error for text outside the tier's table.
pub open spec fn op_result(op: Option<Operator>, node: CstNode) -> Result<
    ExpressionModel,
    LowerErrorModel,
> {
    match op {
        Some(o) => Ok(any_node(ExprModel::Op(o), node.span)),
        None => Err(LowerErrorModel::UnsupportedOperator(node.text@)),
    }
}

/// Combines the lowered operands and operator of a three-child chain node.
pub open spec fn binary_result(
    left: Result<ExpressionModel, LowerErrorModel>,
    op: Result<ExpressionModel, LowerErrorModel>,
    right: Result<ExpressionModel, LowerErrorModel>,
    span: Span,
) -> Result<ExpressionModel, LowerErrorModel> {
    match left {
        Err(e) => Err(e),
        Ok(l) => match op {
            Err(e) => Err(e),
            Ok(o) => match right {
                Err(e) => Err(e),
                Ok(r) => Ok(any_node(ExprModel::Binary(Box::new(l), Box::new(o), Box::new(r)), span)),
            },
        },
    }
}

/// What lowering a concrete syntax tree node yields.
pub open spec fn lower(node: CstNode) -> Result<ExpressionModel, LowerErrorModel>
    decreases node,
{
    let kids = node.children@;
    match node.rule {
        Rule::plus_expr | Rule::mul_expr | Rule::pow_expr => {
            if kids.len() == 1 {
                lower(kids[0])
            } else if kids.len() == 3 {
                binary_result(lower(kids[0]), lower(kids[1]), lower(kids[2]), node.span)
            } else {
                Err(LowerErrorModel::MalformedArity)
            }
        },
        Rule::integer | Rule::dec_int => match i64_of_text(node.text@) {
            Some(v) => Ok(any_node(ExprModel::Int(v), node.span)),
            None => Err(LowerErrorModel::LiteralParse(node.text@)),
        },
        Rule::float => Ok(any_node(ExprModel::Float(node.text@), node.span)),
        Rule::plus_op => op_result(additive_op(node.text@), node),
        Rule::mul_op => op_result(multiplicative_op(node.text@), node),
        Rule::double_quote_string_inner => Ok(
            ExpressionModel { expr: ExprModel::Str(node.text@), span: node.span, ty: Type::String },
        ),
        Rule::string | Rule::double_quote_string => {
            if kids.len() == 1 {
                lower(kids[0])
            } else {
                Err(LowerErrorModel::IncompleteString(node.text@))
            }
        },
        _ => Err(LowerErrorModel::UnsupportedRule(node.rule)),
    }
}

fn any_expression(expr: Expr, span: Span) -> (r: Expression)
    ensures
        r.expr == expr,
        r.span == span,
        r.ty == Type::Any,
{
    Expression { expr, span, ty: Type::Any }
}

fn lower_additive_op(node: &CstNode) -> (r: Result<Expression, LowerError>)
    ensures
        result_model(r) == op_result(additive_op(node.text@), *node),
{
    let t = node.text.as_str();
    if str_eq(t, "+") {
        Ok(any_expression(Expr::Operator(Operator::Plus), node.span))
    } else if str_eq(t, "-") {
        Ok(any_expression(Expr::Operator(Operator::Minus), node.span))
    } else {
        Err(LowerError::UnsupportedOperator(node.text.clone()))
    }
}

fn lower_multiplicative_op(node: &CstNode) -> (r: Result<Expression, LowerError>)
    ensures
        result_model(r) == op_result(multiplicative_op(node.text@), *node),
{
    let t = node.text.as_str();
    if str_eq(t, "*") {
        Ok(any_expression(Expr::Operator(Operator::Multiply), node.span))
    } else if str_eq(t, "/") {
        Ok(any_expression(Expr::Operator(Operator::Divide), node.span))
    } else if str_eq(t, "//") {
        Ok(any_expression(Expr::Operator(Operator::FloorDivision), node.span))
    } else {
        Err(LowerError::UnsupportedOperator(node.text.clone()))
    }
}

/// Lowers a concrete syntax tree node to an abstract syntax tree node. Never panics:
/// every failure is a returned error.
pub fn convert_to_nu_expression(node: &CstNode) -> (r: Result<Expression, LowerError>)
    ensures
        result_model(r) == lower(*node),
    decreases node,
{
    let n = node.children.len();
    match node.rule {
        Rule::plus_expr | Rule::mul_expr | Rule::pow_expr => {
            if n == 1 {
                convert_to_nu_expression(&node.children[0])
            } else if n == 3 {
                let left = match convert_to_nu_expression(&node.children[0]) {
                    Ok(e) => e,
                    Err(e) => return Err(e),
                };
                let op = match convert_to_nu_expression(&node.children[1]) {
                    Ok(e) => e,
                    Err(e) => return Err(e),
                };
                let right = match convert_to_nu_expression(&node.children[2]) {
                    Ok(e) => e,
                    Err(e) => return Err(e),
                };
                Ok(any_expression(Expr::BinaryOp(Box::new(left), Box::new(op), Box::new(right)), node.span))
            } else {
                Err(LowerError::MalformedArity)
            }
        },
        Rule::integer | Rule::dec_int => match parse_i64(node.text.as_str()) {
            Some(v) => Ok(any_expression(Expr::Int(v), node.span)),
            None => Err(LowerError::LiteralParse(node.text.clone())),
        },
        Rule::float => Ok(any_expression(Expr::Float(node.text.clone()), node.span)),
        Rule::plus_op => lower_additive_op(node),
        Rule::mul_op => lower_multiplicative_op(node),
        Rule::double_quote_string_inner => Ok(
            Expression { expr: Expr::String(node.text.clone()), span: node.span, ty: Type::String },
        ),
        Rule::string | Rule::double_quote_string => {
            if n == 1 {
                convert_to_nu_expression(&node.children[0])
            } else {
                Err(LowerError::IncompleteString(node.text.clone()))
            }
        },
        _ => Err(LowerError::UnsupportedRule(node.rule)),
    }
}

} // verus!
