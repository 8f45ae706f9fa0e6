//! The closed set of failures that every layer reports.

use vstd::prelude::*;
use vstd::string::StringExecFns;

verus! {

/// What went wrong, with the offending text as payload.
///
/// `S` is the type of the payload: `String` in executable code, `Seq<char>` in
/// specifications.
#[derive(Debug, PartialEq, Eq)]
pub enum CustomError<S = String> {
    /// An expression, or a query body, of a kind that is not translated.
    SqlExpressionError(S),
    /// A binary operator outside the fixed set.
    SqlOperatorError(S),
    /// A `FROM` clause that is not exactly one plain table.
    SqlTableError(S),
    /// A select item that is neither a column, an aliased column, a wildcard
    /// nor an aggregate.
    SqlSelectItemError(S),
    /// A function that is not one of the aggregates.
    SqlExprFuncItem(S),
    /// An aggregate whose arguments are not one column or, for a count, `*`.
    SqlExprFuncArgsItem(S),
    /// An `ORDER BY` entry that cannot be used.
    SqlOrderError(S),
    /// A literal that is not a number.
    SqlValueError(S),
    /// A statement that is not a query.
    SqlStatementError(S),
    /// Text that does not parse into exactly one statement.
    SqlConvertError(S),
    /// A format tag that is neither `csv` nor `json`.
    LoadTypeError(S),
    /// A failure to fetch a source, or to read what was fetched.
    FetchError { url: S, error: S },
    /// A source whose scheme is neither `http` nor `file`.
    FetchResourceError(S),
    /// A failure inside the table engine.
    PolarsError { error: S },
}

impl DeepView for CustomError<String> {
    type V = CustomError<Seq<char>>;

    open spec fn deep_view(&self) -> CustomError<Seq<char>> {
        match self {
            CustomError::SqlExpressionError(s) => CustomError::SqlExpressionError(s@),
            CustomError::SqlOperatorError(s) => CustomError::SqlOperatorError(s@),
            CustomError::SqlTableError(s) => CustomError::SqlTableError(s@),
            CustomError::SqlSelectItemError(s) => CustomError::SqlSelectItemError(s@),
            CustomError::SqlExprFuncItem(s) => CustomError::SqlExprFuncItem(s@),
            CustomError::SqlExprFuncArgsItem(s) => CustomError::SqlExprFuncArgsItem(s@),
            CustomError::SqlOrderError(s) => CustomError::SqlOrderError(s@),
            CustomError::SqlValueError(s) => CustomError::SqlValueError(s@),
            CustomError::SqlStatementError(s) => CustomError::SqlStatementError(s@),
            CustomError::SqlConvertError(s) => CustomError::SqlConvertError(s@),
            CustomError::LoadTypeError(s) => CustomError::LoadTypeError(s@),
            CustomError::FetchError { url, error } => CustomError::FetchError {
                url: url@,
                error: error@,
            },
            CustomError::FetchResourceError(s) => CustomError::FetchResourceError(s@),
            CustomError::PolarsError { error } => CustomError::PolarsError { error: error@ },
        }
    }
}

/// What an error says, with its payload in place.
pub open spec fn message_of(e: CustomError<Seq<char>>) -> Seq<char> {
    match e {
        CustomError::SqlExpressionError(s) => "sql expression "@ + s + " is not supported"@,
        CustomError::SqlOperatorError(s) => "sql operator "@ + s + " is not supported"@,
        CustomError::SqlTableError(s) => "sql table "@ + s + " is not supported"@,
        CustomError::SqlSelectItemError(s) => "sql select item "@ + s + " is not supported"@,
        CustomError::SqlExprFuncItem(s) => "sql expr function item "@ + s + " is not supported"@,
        CustomError::SqlExprFuncArgsItem(s) => "sql expr function args item "@ + s
            + " is not supported"@,
        CustomError::SqlOrderError(s) => "sql order by "@ + s + " is not supported"@,
        CustomError::SqlValueError(s) => "sql value "@ + s + " is not supported"@,
        CustomError::SqlStatementError(s) => "sql statement "@ + s + " is not supported"@,
        CustomError::SqlConvertError(s) => "sql convert "@ + s + " is not supported"@,
        CustomError::LoadTypeError(s) => "load type "@ + s + " is not supported"@,
        CustomError::FetchError { url, error } => "fetch resource "@ + url + " error is "@ + error,
        CustomError::FetchResourceError(s) => "fetch resource type "@ + s + " is not support"@,
        CustomError::PolarsError { error } => "polars error is "@ + error,
    }
}

/// A payload between two fixed texts.
fn framed(before: &str, payload: &str, after: &str) -> (text: String)
    ensures
        text@ == before@ + payload@ + after@,
{
    let mut text = before.to_owned();
    text.append(payload);
    text.append(after);
    text
}

impl CustomError {
    /// The message of the error, for a reader.
    pub fn message(&self) -> (text: String)
        ensures
            text@ == message_of(self.deep_view()),
    {
        match self {
            CustomError::SqlExpressionError(s) => framed(
                "sql expression ",
                s.as_str(),
                " is not supported",
            ),
            CustomError::SqlOperatorError(s) => framed(
                "sql operator ",
                s.as_str(),
                " is not supported",
            ),
            CustomError::SqlTableError(s) => framed("sql table ", s.as_str(), " is not supported"),
            CustomError::SqlSelectItemError(s) => framed(
                "sql select item ",
                s.as_str(),
                " is not supported",
            ),
            CustomError::SqlExprFuncItem(s) => framed(
                "sql expr function item ",
                s.as_str(),
                " is not supported",
            ),
            CustomError::SqlExprFuncArgsItem(s) => framed(
                "sql expr function args item ",
                s.as_str(),
                " is not supported",
            ),
            CustomError::SqlOrderError(s) => framed(
                "sql order by ",
                s.as_str(),
                " is not supported",
            ),
            CustomError::SqlValueError(s) => framed("sql value ", s.as_str(), " is not supported"),
            CustomError::SqlStatementError(s) => framed(
                "sql statement ",
                s.as_str(),
                " is not supported",
            ),
            CustomError::SqlConvertError(s) => framed(
                "sql convert ",
                s.as_str(),
                " is not supported",
            ),
            CustomError::LoadTypeError(s) => framed("load type ", s.as_str(), " is not supported"),
            CustomError::FetchError { url, error } => {
                let text = framed("fetch resource ", url.as_str(), " error is ");
                text.concat(error.as_str())
            },
            CustomError::FetchResourceError(s) => framed(
                "fetch resource type ",
                s.as_str(),
                " is not support",
            ),
            CustomError::PolarsError { error } => "polars error is ".to_owned().concat(
                error.as_str(),
            ),
        }
    }
}

/// The error type in specifications.
pub type ErrorView = CustomError<Seq<char>>;

/// A result with both sides taken by their views.
pub open spec fn outcome<T: DeepView, E: DeepView>(r: Result<T, E>) -> Result<T::V, E::V> {
    match r {
        Ok(value) => Ok(value.deep_view()),
        Err(error) => Err(error.deep_view()),
    }
}

} // verus!
