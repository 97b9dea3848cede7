use vstd::prelude::*;
use crate::rule::Rule;

verus! {

/// A half-open range `[start, end)` of source offsets.
#[derive(Clone, Copy, Debug, PartialEq, Eq, Structural)]
pub struct Span {
    pub start: usize,
    pub end: usize,
}

/// A binary operator of the arithmetic tiers.
#[derive(Clone, Copy, Debug, PartialEq, Eq, Structural)]
pub enum Operator {
    Plus,
    Minus,
    Multiply,
    Divide,
    FloorDivision,
}

/// The coarse type that the producing rule assigns to a node.
#[derive(Clone, Copy, Debug, PartialEq, Eq, Structural)]
pub enum Type {
    Any,
    String,
}

/// The payload of an abstract syntax tree node.
#[derive(Debug)]
pub enum Expr {
    Int(i64),
    /// A float literal, kept as the decimal text that the grammar matched.
    Float(String),
    String(String),
    Operator(Operator),
    /// Left operand, operator, right operand.
    BinaryOp(Box<Expression>, Box<Expression>, Box<Expression>),
}

/// A node of the abstract syntax tree, with the span it was lowered from.
#[derive(Debug)]
pub struct Expression {
    pub expr: Expr,
    pub span: Span,
    pub ty: Type,
}

/// Why a concrete syntax tree node could not be lowered.
#[derive(Debug)]
pub enum LowerError {
    /// A precedence-tier node with neither one nor three children.
    MalformedArity,
    /// Literal text that is not a number of its kind.
    LiteralParse(String),
    /// Operator text outside the table of its tier.
    UnsupportedOperator(String),
    /// A string wrapper without exactly one child; holds the wrapper's text.
    IncompleteString(String),
    /// A rule that lowering has no production for.
    UnsupportedRule(Rule),
}

/// The mathematical value of an `Expr`.
pub enum ExprModel {
    Int(i64),
    Float(Seq<char>),
    Str(Seq<char>),
    Op(Operator),
    Binary(Box<ExpressionModel>, Box<ExpressionModel>, Box<ExpressionModel>),
}

/// The mathematical value of an `Expression`.
pub struct ExpressionModel {
    pub expr: ExprModel,
    pub span: Span,
    pub ty: Type,
}

/// The mathematical value of a `LowerError`.
pub enum LowerErrorModel {
    MalformedArity,
    LiteralParse(Seq<char>),
    UnsupportedOperator(Seq<char>),
    IncompleteString(Seq<char>),
    UnsupportedRule(Rule),
}

impl Expression {
    pub open spec fn model(&self) -> ExpressionModel
        decreases self,
    {
        ExpressionModel {
            expr: match self.expr {
                Expr::Int(v) => ExprModel::Int(v),
                Expr::Float(t) => ExprModel::Float(t@),
                Expr::String(t) => ExprModel::Str(t@),
                Expr::Operator(o) => ExprModel::Op(o),
                Expr::BinaryOp(l, o, r) => ExprModel::Binary(
                    Box::new(l.model()),
                    Box::new(o.model()),
                    Box::new(r.model()),
                ),
            },
            span: self.span,
            ty: self.ty,
        }
    }
}

impl LowerError {
    pub open spec fn model(&self) -> LowerErrorModel {
        match self {
            LowerError::MalformedArity => LowerErrorModel::MalformedArity,
            LowerError::LiteralParse(t) => LowerErrorModel::LiteralParse(t@),
            LowerError::UnsupportedOperator(t) => LowerErrorModel::UnsupportedOperator(t@),
            LowerError::IncompleteString(t) => LowerErrorModel::IncompleteString(t@),
            LowerError::UnsupportedRule(r) => LowerErrorModel::UnsupportedRule(*r),
        }
    }
}

/// The model of a lowering result.
pub open spec fn result_model(r: Result<Expression, LowerError>) -> Result<
    ExpressionModel,
    LowerErrorModel,
> {
    match r {
        Ok(e) => Ok(e.model()),
        Err(e) => Err(e.model()),
    }
}

} // verus!
