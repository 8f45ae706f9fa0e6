//! The fixed table of binary operators.

use crate::ast::SqlBinaryOperator;
use crate::error::outcome;
use crate::error::CustomError;
use crate::error::ErrorView;
use crate::expr::Operator;
use crate::text::chars_of;
use vstd::prelude::*;
use vstd::std_specs::convert::TryFromSpecImpl;

verus! {

/// An operator on its way to an [`Operator`].
pub struct InterimOperator(pub SqlBinaryOperator);

/// The operator that a parsed operator stands for: each of the thirteen as its
/// namesake, any other as an error that carries its text.
pub open spec fn operator_of(op: SqlBinaryOperator) -> Result<Operator, ErrorView> {
    match op {
        SqlBinaryOperator::Plus => Ok(Operator::Plus),
        SqlBinaryOperator::Minus => Ok(Operator::Minus),
        SqlBinaryOperator::Multiply => Ok(Operator::Multiply),
        SqlBinaryOperator::Divide => Ok(Operator::Divide),
        SqlBinaryOperator::Modulo => Ok(Operator::Modulus),
        SqlBinaryOperator::Gt => Ok(Operator::Gt),
        SqlBinaryOperator::Lt => Ok(Operator::Lt),
        SqlBinaryOperator::GtEq => Ok(Operator::GtEq),
        SqlBinaryOperator::LtEq => Ok(Operator::LtEq),
        SqlBinaryOperator::Eq => Ok(Operator::Eq),
        SqlBinaryOperator::NotEq => Ok(Operator::NotEq),
        SqlBinaryOperator::And => Ok(Operator::And),
        SqlBinaryOperator::Or => Ok(Operator::Or),
        SqlBinaryOperator::Other(text) => Err(CustomError::SqlOperatorError(text@)),
    }
}

/// Translates an operator.
pub fn operator(op: &SqlBinaryOperator) -> (r: Result<Operator, CustomError>)
    ensures
        outcome(r) == operator_of(*op),
{
    match op {
        SqlBinaryOperator::Plus => Ok(Operator::Plus),
        SqlBinaryOperator::Minus => Ok(Operator::Minus),
        SqlBinaryOperator::Multiply => Ok(Operator::Multiply),
        SqlBinaryOperator::Divide => Ok(Operator::Divide),
        SqlBinaryOperator::Modulo => Ok(Operator::Modulus),
        SqlBinaryOperator::Gt => Ok(Operator::Gt),
        SqlBinaryOperator::Lt => Ok(Operator::Lt),
        SqlBinaryOperator::GtEq => Ok(Operator::GtEq),
        SqlBinaryOperator::LtEq => Ok(Operator::LtEq),
        SqlBinaryOperator::Eq => Ok(Operator::Eq),
        SqlBinaryOperator::NotEq => Ok(Operator::NotEq),
        SqlBinaryOperator::And => Ok(Operator::And),
        SqlBinaryOperator::Or => Ok(Operator::Or),
        SqlBinaryOperator::Other(text) => Err(CustomError::SqlOperatorError(text.clone())),
    }
}

impl TryFrom<InterimOperator> for Operator {
    type Error = CustomError;

    fn try_from(op: InterimOperator) -> (r: Result<Operator, CustomError>)
        ensures
            outcome(r) == operator_of(op.0),
    {
        operator(&op.0)
    }
}

impl TryFromSpecImpl<InterimOperator> for Operator {
    open spec fn obeys_try_from_spec() -> bool {
        false
    }

    open spec fn try_from_spec(op: InterimOperator) -> Result<Operator, CustomError> {
        arbitrary()
    }
}

/// The comparison that a text names: one of `>`, `>=`, `=`, `<` and `<=`.
pub open spec fn comparison_named(text: Seq<char>) -> Option<SqlBinaryOperator> {
    if text == seq!['>'] {
        Some(SqlBinaryOperator::Gt)
    } else if text == seq!['>', '='] {
        Some(SqlBinaryOperator::GtEq)
    } else if text == seq!['='] {
        Some(SqlBinaryOperator::Eq)
    } else if text == seq!['<'] {
        Some(SqlBinaryOperator::Lt)
    } else if text == seq!['<', '='] {
        Some(SqlBinaryOperator::LtEq)
    } else {
        None
    }
}

impl TryFrom<&str> for InterimOperator {
    type Error = CustomError;

    fn try_from(value: &str) -> (r: Result<InterimOperator, CustomError>)
        ensures
            match r {
                Ok(op) => comparison_named(value@) == Some(op.0),
                Err(e) => comparison_named(value@) is None && e.deep_view()
                    == CustomError::<Seq<char>>::SqlOperatorError(value@),
            },
    {
        let chars = chars_of(value);
        let n = chars.len();
        if n == 1 && chars[0] == '>' {
            assert(value@ =~= seq!['>']);
            Ok(InterimOperator(SqlBinaryOperator::Gt))
        } else if n == 2 && chars[0] == '>' && chars[1] == '=' {
            assert(value@ =~= seq!['>', '=']);
            Ok(InterimOperator(SqlBinaryOperator::GtEq))
        } else if n == 1 && chars[0] == '=' {
            assert(value@ =~= seq!['=']);
            Ok(InterimOperator(SqlBinaryOperator::Eq))
        } else if n == 1 && chars[0] == '<' {
            assert(value@ =~= seq!['<']);
            Ok(InterimOperator(SqlBinaryOperator::Lt))
        } else if n == 2 && chars[0] == '<' && chars[1] == '=' {
            assert(value@ =~= seq!['<', '=']);
            Ok(InterimOperator(SqlBinaryOperator::LtEq))
        } else {
            assert(seq!['>'].len() == 1 && seq!['>'][0] == '>');
            assert(seq!['='].len() == 1 && seq!['='][0] == '=');
            assert(seq!['<'].len() == 1 && seq!['<'][0] == '<');
            assert(seq!['>', '='].len() == 2 && seq!['>', '='][0] == '>');
            assert(seq!['>', '='][1] == '=');
            assert(seq!['<', '='].len() == 2 && seq!['<', '='][0] == '<');
            assert(seq!['<', '='][1] == '=');
            Err(CustomError::SqlOperatorError(value.to_owned()))
        }
    }
}

impl TryFromSpecImpl<&str> for InterimOperator {
    open spec fn obeys_try_from_spec() -> bool {
        false
    }

    open spec fn try_from_spec(value: &str) -> Result<InterimOperator, CustomError> {
        arbitrary()
    }
}

/// The parsed operator that an operator is written as.
pub open spec fn written_as(operator: Operator) -> SqlBinaryOperator {
    match operator {
        Operator::Plus => SqlBinaryOperator::Plus,
        Operator::Minus => SqlBinaryOperator::Minus,
        Operator::Multiply => SqlBinaryOperator::Multiply,
        Operator::Divide => SqlBinaryOperator::Divide,
        Operator::Modulus => SqlBinaryOperator::Modulo,
        Operator::Eq => SqlBinaryOperator::Eq,
        Operator::NotEq => SqlBinaryOperator::NotEq,
        Operator::Gt => SqlBinaryOperator::Gt,
        Operator::GtEq => SqlBinaryOperator::GtEq,
        Operator::Lt => SqlBinaryOperator::Lt,
        Operator::LtEq => SqlBinaryOperator::LtEq,
        Operator::And => SqlBinaryOperator::And,
        Operator::Or => SqlBinaryOperator::Or,
    }
}

/// Every operator is the translation of the parsed operator that it is
/// written as.
pub proof fn lemma_operator_round_trip(operator: Operator)
    ensures
        operator_of(written_as(operator)) == Ok::<Operator, ErrorView>(operator),
{
}

/// A parsed operator is translated if and only if some operator is written as
/// it; any other is an operator error that carries its text.
pub proof fn lemma_operator_outside(op: SqlBinaryOperator)
    ensures
        operator_of(op) matches Ok(operator) ==> written_as(operator) == op,
        op matches SqlBinaryOperator::Other(text) ==> operator_of(op) == Err::<
            Operator,
            ErrorView,
        >(CustomError::SqlOperatorError(text@)),
        operator_of(op) is Err <==> op is Other,
{
}

} // verus!
