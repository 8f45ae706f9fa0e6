//! Parsing SQL text under the dialect.
//!
//! The parser is sqlparser's. Its statement is opaque here:
//! what the translation reads of a statement, a caller writes down in the
//! types of [`crate::ast`].

use crate::dialect::TyrDialect;
use crate::error::CustomError;
use vstd::prelude::*;

verus! {

/// sqlparser's `Statement`: a parsed statement.
#[verifier::external_type_specification]
#[verifier::external_body]
pub struct ExStatement(sqlparser::ast::Statement);

/// What parsing a text under [`TyrDialect`] gives: its statements, in order,
/// or the message of the parser where the text does not parse.
pub uninterp spec fn parse_outcome(sql: Seq<char>) -> Result<
    Seq<sqlparser::ast::Statement>,
    Seq<char>,
>;

/// `Parser::parse_sql` under [`TyrDialect`]: the statements of a text, or the
/// message of its error. The contract names what comes of a text: which
/// statements, or which message.
#[verifier::external_body]
fn parse_sql(sql: &str) -> (parsed: Result<Vec<sqlparser::ast::Statement>, String>)
    ensures
        match parsed {
            Ok(statements) => parse_outcome(sql@) == Ok::<
                Seq<sqlparser::ast::Statement>,
                Seq<char>,
            >(statements@),
            Err(message) => parse_outcome(sql@) == Err::<
                Seq<sqlparser::ast::Statement>,
                Seq<char>,
            >(message@),
        },
{
    match sqlparser::parser::Parser::parse_sql(&TyrDialect, sql) {
        Ok(statements) => Ok(statements),
        Err(error) => Err(error.to_string()),
    }
}

/// Picks the one statement of a parsed text.
///
/// A text that did not parse is a convert error that carries the message of
/// the parser; one that holds no statement, or more than one, is a convert
/// error that carries the text.
pub fn sole_statement(
    sql: &str,
    parsed: Result<Vec<sqlparser::ast::Statement>, String>,
) -> (r: Result<sqlparser::ast::Statement, CustomError>)
    ensures
        match parsed {
            Ok(statements) => if statements@.len() == 1 {
                r == Ok::<sqlparser::ast::Statement, CustomError>(statements@[0])
            } else {
                r matches Err(e) && e.deep_view() == CustomError::<Seq<char>>::SqlConvertError(
                    sql@,
                )
            },
            Err(message) => r matches Err(e) && e.deep_view() == CustomError::<
                Seq<char>,
            >::SqlConvertError(message@),
        },
{
    match parsed {
        Ok(mut statements) => {
            if statements.len() != 1 {
                return Err(CustomError::SqlConvertError(sql.to_owned()));
            }
            match statements.pop() {
                Some(statement) => Ok(statement),
                None => Err(CustomError::SqlConvertError(sql.to_owned())),
            }
        },
        Err(message) => Err(CustomError::SqlConvertError(message)),
    }
}

/// Parses a text that must hold exactly one statement: the statement is the
/// result where the text parses to one. A text that does not parse is a
/// convert error that carries the message of the parser; one that parses to
/// no statement, or to more than one, is a convert error that carries the text.
pub fn parse_statement(sql: &str) -> (r: Result<sqlparser::ast::Statement, CustomError>)
    ensures
        match parse_outcome(sql@) {
            Ok(statements) => if statements.len() == 1 {
                r == Ok::<sqlparser::ast::Statement, CustomError>(statements[0])
            } else {
                r matches Err(e) && e.deep_view() == CustomError::<Seq<char>>::SqlConvertError(
                    sql@,
                )
            },
            Err(message) => r matches Err(e) && e.deep_view() == CustomError::<
                Seq<char>,
            >::SqlConvertError(message),
        },
{
    sole_statement(sql, parse_sql(sql))
}

} // verus!
