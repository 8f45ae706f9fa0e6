//! A parsed statement, as far as translation reads it.
//!
//! These types hold as plain values the parts of the parser's syntax tree that
//! the translation looks at. Whatever it does not look into is kept as the text
//! that the parser prints for it, so that an error can name it.

use vstd::prelude::*;

verus! {

/// A literal value.
#[derive(Debug, PartialEq, Eq)]
pub enum SqlValue {
    /// A number, as the numeral that was written.
    Number(String),
    /// Any other literal, as its text.
    Other(String),
}

/// A binary operator.
#[derive(Debug, PartialEq, Eq)]
pub enum SqlBinaryOperator {
    Plus,
    Minus,
    Multiply,
    Divide,
    Modulo,
    Gt,
    Lt,
    GtEq,
    LtEq,
    Eq,
    NotEq,
    And,
    Or,
    /// Any other operator, as its text.
    Other(String),
}

/// An expression of a `WHERE`, `LIMIT` or `OFFSET` clause.
#[derive(Debug, PartialEq, Eq)]
pub enum SqlExpr {
    BinaryOp { left: Box<SqlExpr>, op: SqlBinaryOperator, right: Box<SqlExpr> },
    Wildcard,
    /// An identifier, by its value.
    Identifier(String),
    Value(SqlValue),
    /// Any other expression, as its text.
    Other(String),
}

/// What stands where the grammar wants a name.
#[derive(Debug, PartialEq, Eq)]
pub enum SqlName {
    /// An identifier, by its value.
    Identifier(String),
    /// Anything else, as its text.
    Other(String),
}

/// An argument of a function call.
#[derive(Debug, PartialEq, Eq)]
pub enum SqlFunctionArg {
    /// `*`
    Wildcard,
    /// An identifier, by its value.
    Identifier(String),
    /// Anything else, as its text.
    Other(String),
}

/// A function call.
#[derive(Debug, PartialEq, Eq)]
pub struct SqlFunction {
    /// The name of the function, as written.
    pub name: String,
    /// The arguments between the parentheses; none for a call without a list
    /// of arguments.
    pub args: Vec<SqlFunctionArg>,
    /// Whatever else the call holds, each as its text: `DISTINCT` or `ALL`,
    /// clauses inside the parentheses, parameters, a subquery in place of the
    /// arguments, `FILTER`, `OVER`, `WITHIN GROUP`, a treatment of nulls.
    pub modifiers: Vec<String>,
    /// The whole call, as its text.
    pub text: String,
}

/// An item of the select list.
#[derive(Debug, PartialEq, Eq)]
pub enum SqlSelectItem {
    /// A bare identifier, by its value.
    Identifier(String),
    /// An identifier with an alias.
    AliasedIdentifier { name: String, alias: String },
    /// A bare function call.
    Function(SqlFunction),
    /// A function call with an alias.
    AliasedFunction { function: SqlFunction, alias: String },
    /// `*`
    Wildcard,
    /// Any other item, as its text.
    Other(String),
}

/// What a `FROM` clause names.
#[derive(Debug, PartialEq, Eq)]
pub enum SqlTableFactor {
    /// A table, by the parts of its name.
    Table { name: Vec<SqlName> },
    /// Anything else, as its text.
    Other(String),
}

/// A table reference with the tables joined to it.
#[derive(Debug, PartialEq, Eq)]
pub struct SqlTableWithJoins {
    pub relation: SqlTableFactor,
    /// The joins, each as its text.
    pub joins: Vec<String>,
    /// The whole reference, joins and all, as its text.
    pub text: String,
}

/// An entry of an `ORDER BY` list.
#[derive(Debug, PartialEq, Eq)]
pub struct SqlOrderByExpr {
    pub expr: SqlName,
    /// `Some(true)` for `ASC`, `Some(false)` for `DESC`, `None` where neither is written.
    pub asc: Option<bool>,
}

/// An `ORDER BY` clause.
#[derive(Debug, PartialEq, Eq)]
pub enum SqlOrderBy {
    /// `ORDER BY ALL`
    All,
    Expressions(Vec<SqlOrderByExpr>),
}

/// A `GROUP BY` clause; a query without one has an empty list of expressions.
#[derive(Debug, PartialEq, Eq)]
pub enum SqlGroupBy {
    /// `GROUP BY ALL`
    All,
    Expressions(Vec<SqlName>),
}

/// An `OFFSET` clause.
#[derive(Debug, PartialEq, Eq)]
pub struct SqlOffset {
    pub value: SqlExpr,
}

/// The clause that limits the rows of a query.
#[derive(Debug, PartialEq, Eq)]
pub enum SqlLimitClause {
    /// `LIMIT <limit> OFFSET <offset>`, each part optional.
    LimitOffset { limit: Option<SqlExpr>, offset: Option<SqlOffset> },
    /// `LIMIT <offset>, <limit>`
    OffsetCommaLimit,
}

/// A plain `SELECT`.
#[derive(Debug, PartialEq, Eq)]
pub struct SqlSelect {
    pub projection: Vec<SqlSelectItem>,
    pub from: Vec<SqlTableWithJoins>,
    /// The `WHERE` clause.
    pub selection: Option<SqlExpr>,
    pub group_by: SqlGroupBy,
}

/// The body of a query.
#[derive(Debug, PartialEq, Eq)]
pub enum SqlSetExpr {
    Select(SqlSelect),
    /// Any other body, as its text.
    Other(String),
}

/// A query: a body with its ordering and its limits.
#[derive(Debug, PartialEq, Eq)]
pub struct SqlQuery {
    pub body: SqlSetExpr,
    pub order_by: Option<SqlOrderBy>,
    pub limit_clause: Option<SqlLimitClause>,
}

/// A statement.
#[derive(Debug, PartialEq, Eq)]
pub enum SqlStatement {
    Query(SqlQuery),
    /// Any other statement, as its text.
    Other(String),
}

} // verus!
