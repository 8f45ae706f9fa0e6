//! Translation of a parsed statement into the logical description of a query.

pub mod group;
pub mod limit;
pub mod listing;
pub mod operator;
pub mod order;
pub mod predicate;
pub mod projection;
pub mod source;

pub use crate::convert::group::group_keys;
pub use crate::convert::limit::InterimLimit;
pub use crate::convert::limit::InterimOffset;
pub use crate::convert::operator::operator;
pub use crate::convert::operator::InterimOperator;
pub use crate::convert::order::InterimOrderBy;
pub use crate::convert::order::OrderType;
pub use crate::convert::predicate::identifier;
pub use crate::convert::predicate::literal;
pub use crate::convert::predicate::predicate;
pub use crate::convert::predicate::InterimExpr;
pub use crate::convert::predicate::InterimValue;
pub use crate::convert::projection::aggregate;
pub use crate::convert::projection::aggregate_function;
pub use crate::convert::projection::select_item;
pub use crate::convert::projection::select_list;
pub use crate::convert::projection::InterimSelectItem;
pub use crate::convert::source::InterimSource;

use crate::ast::SqlExpr;
use crate::ast::SqlLimitClause;
use crate::ast::SqlOrderBy;
use crate::ast::SqlQuery;
use crate::ast::SqlSetExpr;
use crate::ast::SqlStatement;
use crate::convert::group::group_by_of;
use crate::convert::limit::limit_of;
use crate::convert::limit::offset_of;
use crate::convert::order::order_of;
use crate::convert::predicate::predicate_of;
use crate::convert::projection::aggregations_of;
use crate::convert::projection::projections_of;
use crate::convert::source::source_of;
use crate::error::outcome;
use crate::error::CustomError;
use crate::error::ErrorView;
use crate::expr::Expression;
use crate::expr::ExpressionView;
use vstd::prelude::*;
use vstd::std_specs::convert::TryFromSpecImpl;

verus! {

/// The logical description of a query.
#[derive(Debug, PartialEq)]
pub struct Sql<'a> {
    /// What to project, in order.
    pub selection: Vec<Expression>,
    /// The predicate that rows must meet; without one every row is kept.
    pub condition: Option<Expression>,
    /// The one source of the data: a URL, or a path after `file://`.
    pub source: &'a str,
    /// The sort keys, the most significant first.
    pub order_by: Vec<(String, OrderType)>,
    /// How many rows to skip.
    pub offset: Option<i64>,
    /// How many rows to keep.
    pub limit: Option<usize>,
    /// The columns to group by; without any the query is not grouped.
    pub group_by: Vec<String>,
    /// The aggregates to compute for each group.
    pub aggregation: Vec<Expression>,
}

/// The description of a query in specifications.
pub struct SqlView {
    pub selection: Seq<ExpressionView>,
    pub condition: Option<ExpressionView>,
    pub source: Seq<char>,
    pub order_by: Seq<(Seq<char>, OrderType)>,
    pub offset: Option<i64>,
    pub limit: Option<usize>,
    pub group_by: Seq<Seq<char>>,
    pub aggregation: Seq<ExpressionView>,
}

impl SqlView {
    /// Whether the description is well formed: no negative number of rows is skipped.
    pub open spec fn wf(self) -> bool {
        self.offset matches Some(rows) ==> rows >= 0
    }
}

impl<'a> DeepView for Sql<'a> {
    type V = SqlView;

    open spec fn deep_view(&self) -> SqlView {
        SqlView {
            selection: self.selection.deep_view(),
            condition: self.condition.deep_view(),
            source: self.source@,
            order_by: self.order_by.deep_view(),
            offset: self.offset,
            limit: self.limit,
            group_by: self.group_by.deep_view(),
            aggregation: self.aggregation.deep_view(),
        }
    }
}

/// The rows to keep and the rows to skip that a query asks for. Only the form
/// `LIMIT .. OFFSET ..` is read, and a part that is no numeral counts as absent.
pub open spec fn limits_of(clause: Option<SqlLimitClause>) -> (Option<usize>, Option<i64>) {
    match clause {
        Some(SqlLimitClause::LimitOffset { limit, offset }) => (
            match limit {
                Some(l) => limit_of(l),
                None => None,
            },
            match offset {
                Some(o) => offset_of(o),
                None => None,
            },
        ),
        _ => (None, None),
    }
}

/// The sort keys that a query asks for.
pub open spec fn ordering_of(order_by: Option<SqlOrderBy>) -> Seq<(Seq<char>, OrderType)> {
    match order_by {
        Some(o) => order_of(o),
        None => Seq::empty(),
    }
}

/// The predicate of a `WHERE` clause, if there is one.
pub open spec fn condition_of(selection: Option<SqlExpr>) -> Result<
    Option<ExpressionView>,
    ErrorView,
> {
    match selection {
        None => Ok(None),
        Some(expr) => match predicate_of(expr) {
            Ok(p) => Ok(Some(p)),
            Err(e) => Err(e),
        },
    }
}

/// The description of a query.
///
/// The body must be a plain `SELECT`. Its parts are translated in this order,
/// and the first error is the result: the source, the predicate, the select
/// list, the columns to group by.
pub open spec fn translate_query(query: SqlQuery) -> Result<SqlView, ErrorView> {
    match query.body {
        SqlSetExpr::Other(text) => Err(CustomError::SqlExpressionError(text@)),
        SqlSetExpr::Select(select) => match source_of(select.from@) {
            Err(e) => Err(e),
            Ok(source) => match condition_of(select.selection) {
                Err(e) => Err(e),
                Ok(condition) => match projections_of(select.projection@) {
                    Err(e) => Err(e),
                    Ok(selection) => match group_by_of(select.group_by) {
                        Err(e) => Err(e),
                        Ok(group_by) => Ok(
                            SqlView {
                                selection,
                                condition,
                                source,
                                order_by: ordering_of(query.order_by),
                                offset: limits_of(query.limit_clause).1,
                                limit: limits_of(query.limit_clause).0,
                                group_by,
                                aggregation: aggregations_of(select.projection@),
                            },
                        ),
                    },
                },
            },
        },
    }
}

/// The description of the query that a statement makes; a statement that is
/// no query is an error that carries its text.
pub open spec fn translate_statement(statement: SqlStatement) -> Result<SqlView, ErrorView> {
    match statement {
        SqlStatement::Query(query) => translate_query(query),
        SqlStatement::Other(text) => Err(CustomError::SqlStatementError(text@)),
    }
}

impl<'a> TryFrom<&'a SqlStatement> for Sql<'a> {
    type Error = CustomError;

    fn try_from(sql: &'a SqlStatement) -> (r: Result<Sql<'a>, CustomError>)
        ensures
            outcome(r) == translate_statement(*sql),
            r matches Ok(description) ==> description.deep_view().wf(),
    {
        let q = match sql {
            SqlStatement::Query(q) => q,
            SqlStatement::Other(text) => {
                return Err(CustomError::SqlStatementError(text.clone()));
            },
        };
        let (limit, offset) = match &q.limit_clause {
            Some(SqlLimitClause::LimitOffset { limit, offset }) => (
                match limit {
                    Some(l) => Option::<usize>::from(InterimLimit(l)),
                    None => None,
                },
                match offset {
                    Some(o) => Option::<i64>::from(InterimOffset(o)),
                    None => None,
                },
            ),
            _ => (None, None),
        };
        let order_by = match &q.order_by {
            Some(o) => match Vec::<(String, OrderType)>::try_from(InterimOrderBy(o)) {
                Ok(keys) => keys,
                Err(e) => {
                    return Err(e);
                },
            },
            None => Vec::new(),
        };
        assert(order_by.deep_view() =~= ordering_of(q.order_by));
        let select = match &q.body {
            SqlSetExpr::Select(select) => select,
            SqlSetExpr::Other(text) => {
                return Err(CustomError::SqlExpressionError(text.clone()));
            },
        };
        let source = match <&str>::try_from(InterimSource(select.from.as_slice())) {
            Ok(source) => source,
            Err(e) => {
                return Err(e);
            },
        };
        let condition = match &select.selection {
            Some(expr) => match predicate(expr) {
                Ok(p) => Some(p),
                Err(e) => {
                    return Err(e);
                },
            },
            None => None,
        };
        let (selection, aggregation) = match select_list(&select.projection) {
            Ok(lists) => lists,
            Err(e) => {
                return Err(e);
            },
        };
        let group_by = match group_keys(&select.group_by) {
            Ok(keys) => keys,
            Err(e) => {
                return Err(e);
            },
        };
        Ok(Sql { selection, condition, source, order_by, offset, limit, group_by, aggregation })
    }
}

impl<'a> TryFromSpecImpl<&'a SqlStatement> for Sql<'a> {
    open spec fn obeys_try_from_spec() -> bool {
        false
    }

    open spec fn try_from_spec(sql: &'a SqlStatement) -> Result<Sql<'a>, CustomError> {
        arbitrary()
    }
}

/// A query over two tables or more, or over a table with a join, is a table
/// error.
pub proof fn lemma_translate_wants_one_table(query: SqlQuery)
    requires
        query.body matches SqlSetExpr::Select(select) && (select.from@.len() != 1
            || select.from@[0].joins@.len() > 0),
    ensures
        translate_statement(SqlStatement::Query(query)) matches Err(e) && e is SqlTableError,
{
}

/// A query is translated only if its body is a plain `SELECT` over exactly one
/// table reference without joins, and the description has the source that
/// this reference names.
pub proof fn lemma_translated_has_one_source(query: SqlQuery)
    ensures
        translate_statement(SqlStatement::Query(query)) matches Ok(description) ==> {
            &&& query.body matches SqlSetExpr::Select(select)
            &&& select.from@.len() == 1
            &&& select.from@[0].joins@.len() == 0
            &&& source_of(select.from@) == Ok::<Seq<char>, ErrorView>(description.source)
        },
{
}

/// A translated query is well formed.
pub proof fn lemma_translated_is_wf(statement: SqlStatement)
    ensures
        translate_statement(statement) matches Ok(description) ==> description.wf(),
{
}

} // verus!
