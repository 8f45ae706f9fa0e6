//! The expressions that a translated query is made of.

use vstd::prelude::*;

verus! {

/// The binary operators that a predicate may use.
#[derive(Debug, Clone, Copy, PartialEq, Eq)]
pub enum Operator {
    Plus,
    Minus,
    Multiply,
    Divide,
    Modulus,
    Eq,
    NotEq,
    Gt,
    GtEq,
    Lt,
    LtEq,
    And,
    Or,
}

impl DeepView for Operator {
    type V = Operator;

    open spec fn deep_view(&self) -> Operator {
        *self
    }
}

/// The functions that reduce a group of rows to one value.
#[derive(Debug, Clone, Copy, PartialEq, Eq)]
pub enum AggregateFunction {
    Count,
    Max,
    Min,
    Sum,
    Avg,
}

/// An expression over the columns of a table.
///
/// `S` is the type of names and numerals: `String` in executable code,
/// `Seq<char>` in specifications.
#[derive(Debug, PartialEq, Eq)]
pub enum Expression<S = String> {
    /// The column of that name.
    Column(S),
    /// A number, kept as the numeral that was written. The table engine reads
    /// the numeral; one that it cannot read counts as zero.
    Literal(S),
    /// Two expressions joined by an operator.
    BinaryOp { left: Box<Expression<S>>, operator: Operator, right: Box<Expression<S>> },
    /// Every column.
    Wildcard,
    /// An expression under a new name.
    Alias { expr: Box<Expression<S>>, name: S },
    /// An expression reduced over the rows of a group.
    Aggregate { function: AggregateFunction, expr: Box<Expression<S>> },
}

/// The expression type in specifications.
pub type ExpressionView = Expression<Seq<char>>;

/// An expression with each name and numeral taken by its characters.
pub open spec fn expression_view(e: Expression) -> ExpressionView
    decreases e,
{
    match e {
        Expression::Column(name) => Expression::Column(name@),
        Expression::Literal(numeral) => Expression::Literal(numeral@),
        Expression::BinaryOp { left, operator, right } => Expression::BinaryOp {
            left: Box::new(expression_view(*left)),
            operator,
            right: Box::new(expression_view(*right)),
        },
        Expression::Wildcard => Expression::Wildcard,
        Expression::Alias { expr, name } => Expression::Alias {
            expr: Box::new(expression_view(*expr)),
            name: name@,
        },
        Expression::Aggregate { function, expr } => Expression::Aggregate {
            function,
            expr: Box::new(expression_view(*expr)),
        },
    }
}

impl DeepView for Expression<String> {
    type V = ExpressionView;

    open spec fn deep_view(&self) -> ExpressionView {
        expression_view(*self)
    }
}

} // verus!
