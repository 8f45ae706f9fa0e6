//! Predicates: the expression of a `WHERE` clause.

use crate::ast::SqlExpr;
use crate::ast::SqlValue;
use crate::convert::operator::comparison_named;
use crate::convert::operator::lemma_operator_round_trip;
use crate::convert::operator::operator;
use crate::convert::operator::operator_of;
use crate::convert::operator::written_as;
use crate::convert::operator::InterimOperator;
use crate::error::outcome;
use crate::error::CustomError;
use crate::error::ErrorView;
use crate::expr::expression_view;
use crate::expr::Expression;
use crate::expr::ExpressionView;
use crate::expr::Operator;
use crate::text::chars_of;
use crate::text::find;
use crate::text::first_occurrence;
use crate::text::lemma_first_occurrence;
use vstd::prelude::*;
use vstd::std_specs::convert::TryFromSpecImpl;
use vstd::string::StrSliceExecFns;

verus! {

/// An expression of a `WHERE` clause on its way to an [`Expression`].
pub struct InterimExpr(pub Box<SqlExpr>);

/// A literal on its way to an [`Expression`].
pub struct InterimValue(pub SqlValue);

/// The expression that a literal stands for: a number as its numeral, any
/// other literal as an error that carries its text.
pub open spec fn literal_of(value: SqlValue) -> Result<ExpressionView, ErrorView> {
    match value {
        SqlValue::Number(numeral) => Ok(Expression::Literal(numeral@)),
        SqlValue::Other(text) => Err(CustomError::SqlValueError(text@)),
    }
}

/// Translates a literal.
pub fn literal(value: &SqlValue) -> (r: Result<Expression, CustomError>)
    ensures
        outcome(r) == literal_of(*value),
{
    match value {
        SqlValue::Number(numeral) => Ok(Expression::Literal(numeral.clone())),
        SqlValue::Other(text) => Err(CustomError::SqlValueError(text.clone())),
    }
}

impl TryFrom<InterimValue> for Expression {
    type Error = CustomError;

    fn try_from(value: InterimValue) -> (r: Result<Expression, CustomError>)
        ensures
            outcome(r) == literal_of(value.0),
    {
        literal(&value.0)
    }
}

impl TryFromSpecImpl<InterimValue> for Expression {
    open spec fn obeys_try_from_spec() -> bool {
        false
    }

    open spec fn try_from_spec(value: InterimValue) -> Result<Expression, CustomError> {
        arbitrary()
    }
}

/// The comparisons that an identifier may embed, each with its operator, in
/// the order in which they are looked for.
pub open spec fn embedded_comparisons() -> Seq<(Seq<char>, Operator)> {
    seq![
        (seq!['='], Operator::Eq),
        (seq!['>'], Operator::Gt),
        (seq!['>', '='], Operator::GtEq),
        (seq!['<'], Operator::Lt),
        (seq!['<', '='], Operator::LtEq),
    ]
}

/// What an identifier stands for when only the comparisons from the `k`-th on
/// are looked for.
pub open spec fn split_identifier_from(name: Seq<char>, k: int) -> ExpressionView
    decreases embedded_comparisons().len() - k,
{
    if k < 0 || k >= embedded_comparisons().len() {
        Expression::Column(name)
    } else {
        let (pattern, operator) = embedded_comparisons()[k];
        match first_occurrence(name, pattern) {
            Some(at) => Expression::BinaryOp {
                left: Box::new(Expression::Column(name.subrange(0, at))),
                operator,
                right: Box::new(
                    Expression::Literal(name.subrange(at + pattern.len(), name.len() as int)),
                ),
            },
            None => split_identifier_from(name, k + 1),
        }
    }
}

/// What an identifier stands for.
///
/// An identifier may have swallowed a comparison that was written without
/// spaces, as in `age>10`. The comparisons `=`, `>`, `>=`, `<` and `<=` are
/// looked for in this order. The first of them that occurs in the identifier
/// splits it at its first occurrence: what stands before it is a column, what
/// stands after it a number. An identifier that holds none is a column.
pub open spec fn identifier_expression(name: Seq<char>) -> ExpressionView {
    split_identifier_from(name, 0)
}

/// An identifier that holds an equals sign is split at the first one,
/// whatever else it holds: the equals sign is looked for first.
pub proof fn lemma_equals_sign_splits_first(name: Seq<char>)
    requires
        first_occurrence(name, seq!['=']) is Some,
    ensures
        identifier_expression(name) == ({
            let at = first_occurrence(name, seq!['='])->0;
            ExpressionView::BinaryOp {
                left: Box::new(Expression::Column(name.subrange(0, at))),
                operator: Operator::Eq,
                right: Box::new(Expression::Literal(name.subrange(at + 1, name.len() as int))),
            }
        }),
{
    assert(embedded_comparisons()[0] == (seq!['='], Operator::Eq));
    assert(seq!['='].len() == 1);
}

/// The `k`-th of the comparisons that an identifier may embed.
fn embedded_comparison(k: usize) -> (pattern: &'static str)
    requires
        k < 5,
    ensures
        pattern@ == embedded_comparisons()[k as int].0,
        comparison_named(pattern@) matches Some(op) && operator_of(op) == Ok::<Operator, ErrorView>(
            embedded_comparisons()[k as int].1,
        ),
{
    proof {
        reveal_strlit("=");
        reveal_strlit(">");
        reveal_strlit(">=");
        reveal_strlit("<");
        reveal_strlit("<=");
        assert(seq!['>'].len() == 1 && seq!['>'][0] == '>');
        assert(seq!['='].len() == 1 && seq!['='][0] == '=');
        assert(seq!['<'].len() == 1 && seq!['<'][0] == '<');
        assert(seq!['>', '='].len() == 2 && seq!['>', '='][0] == '>');
        assert(seq!['<', '='].len() == 2 && seq!['<', '='][0] == '<');
    }
    if k == 0 {
        assert("="@ =~= seq!['=']);
        "="
    } else if k == 1 {
        assert(">"@ =~= seq!['>']);
        ">"
    } else if k == 2 {
        assert(">="@ =~= seq!['>', '=']);
        ">="
    } else if k == 3 {
        assert("<"@ =~= seq!['<']);
        "<"
    } else {
        assert("<="@ =~= seq!['<', '=']);
        "<="
    }
}

/// Translates an identifier of a predicate.
pub fn identifier(name: &str) -> (r: Result<Expression, CustomError>)
    ensures
        outcome(r) == Ok::<ExpressionView, ErrorView>(identifier_expression(name@)),
{
    let chars = chars_of(name);
    let mut k: usize = 0;
    while k < 5
        invariant
            k <= 5,
            chars@ == name@,
            identifier_expression(name@) == split_identifier_from(name@, k as int),
        decreases 5 - k,
    {
        let pattern = embedded_comparison(k);
        let pattern_chars = chars_of(pattern);
        match find(chars.as_slice(), pattern_chars.as_slice()) {
            Some(at) => {
                proof {
                    lemma_first_occurrence(name@, pattern@);
                }
                assert(at + pattern_chars.len() <= chars.len());
                let op = match InterimOperator::try_from(pattern) {
                    Ok(op) => op,
                    Err(e) => {
                        return Err(e);
                    },
                };
                let operator = match Operator::try_from(op) {
                    Ok(operator) => operator,
                    Err(e) => {
                        return Err(e);
                    },
                };
                let left = name.substring_char(0, at).to_owned();
                let right = name.substring_char(at + pattern_chars.len(), chars.len()).to_owned();
                assert(expression_view(Expression::Column(left)) == Expression::Column(left@));
                assert(expression_view(Expression::Literal(right)) == Expression::Literal(right@));
                return Ok(
                    Expression::BinaryOp {
                        left: Box::new(Expression::Column(left)),
                        operator,
                        right: Box::new(Expression::Literal(right)),
                    },
                );
            },
            None => {},
        }
        k = k + 1;
    }
    Ok(Expression::Column(name.to_owned()))
}

/// The expression that a parsed predicate stands for.
///
/// A binary operation is translated part by part, the left side first, then
/// the operator, then the right side, and the first error is the result.
pub open spec fn predicate_of(expr: SqlExpr) -> Result<ExpressionView, ErrorView>
    decreases expr,
{
    match expr {
        SqlExpr::BinaryOp { left, op, right } => match predicate_of(*left) {
            Err(e) => Err(e),
            Ok(l) => match operator_of(op) {
                Err(e) => Err(e),
                Ok(operator) => match predicate_of(*right) {
                    Err(e) => Err(e),
                    Ok(r) => Ok(
                        Expression::BinaryOp { left: Box::new(l), operator, right: Box::new(r) },
                    ),
                },
            },
        },
        SqlExpr::Wildcard => Ok(Expression::Wildcard),
        SqlExpr::Identifier(name) => Ok(identifier_expression(name@)),
        SqlExpr::Value(value) => literal_of(value),
        SqlExpr::Other(text) => Err(CustomError::SqlExpressionError(text@)),
    }
}

/// Translates a predicate.
pub fn predicate(expr: &SqlExpr) -> (r: Result<Expression, CustomError>)
    ensures
        outcome(r) == predicate_of(*expr),
    decreases *expr,
{
    match expr {
        SqlExpr::BinaryOp { left, op, right } => {
            let l = match predicate(left) {
                Ok(l) => l,
                Err(e) => {
                    return Err(e);
                },
            };
            let operator = match operator(op) {
                Ok(operator) => operator,
                Err(e) => {
                    return Err(e);
                },
            };
            let r = match predicate(right) {
                Ok(r) => r,
                Err(e) => {
                    return Err(e);
                },
            };
            Ok(Expression::BinaryOp { left: Box::new(l), operator, right: Box::new(r) })
        },
        SqlExpr::Wildcard => Ok(Expression::Wildcard),
        SqlExpr::Identifier(name) => identifier(name.as_str()),
        SqlExpr::Value(value) => literal(value),
        SqlExpr::Other(text) => Err(CustomError::SqlExpressionError(text.clone())),
    }
}

/// A binary operation whose sides are translated is translated with the
/// operator that its parsed operator is written for.
pub proof fn lemma_predicate_keeps_operator(left: SqlExpr, operator: Operator, right: SqlExpr)
    requires
        predicate_of(left) is Ok,
        predicate_of(right) is Ok,
    ensures
        predicate_of(
            SqlExpr::BinaryOp {
                left: Box::new(left),
                op: written_as(operator),
                right: Box::new(right),
            },
        ) == Ok::<ExpressionView, ErrorView>(
            Expression::BinaryOp {
                left: Box::new(predicate_of(left)->Ok_0),
                operator,
                right: Box::new(predicate_of(right)->Ok_0),
            },
        ),
{
    lemma_operator_round_trip(operator);
}

impl TryFrom<InterimExpr> for Expression {
    type Error = CustomError;

    fn try_from(expr: InterimExpr) -> (r: Result<Expression, CustomError>)
        ensures
            outcome(r) == predicate_of(*expr.0),
    {
        predicate(&*expr.0)
    }
}

impl TryFromSpecImpl<InterimExpr> for Expression {
    open spec fn obeys_try_from_spec() -> bool {
        false
    }

    open spec fn try_from_spec(expr: InterimExpr) -> Result<Expression, CustomError> {
        arbitrary()
    }
}

} // verus!
