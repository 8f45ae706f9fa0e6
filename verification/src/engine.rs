//! The table engine, as far as the library leans on it.
//!
//! Everything here is taken on trust: the types are opaque, and each function
//! hands one task to the engine, or to the standard library where its text
//! says so. What a contract claims is said above it.
//!
//! polars can be told by the environment of a process to panic wherever it
//! would give an error. In such a process every function here that can fail
//! panics where it fails, and no precondition can rule that out.

use crate::dataset::ColumnType;
use crate::expr::AggregateFunction;
use crate::expr::Operator;
use crate::shape::column_shape;
use crate::shape::ExprShape;
use crate::shape::Stage;
use polars::prelude::DataFrame;
use polars::prelude::IntoLazy;
use polars::prelude::SerReader;
use polars::prelude::SerWriter;
use vstd::prelude::*;

verus! {

/// polars' `LazyFrame`: a query over a table that has not run yet.
#[verifier::external_type_specification]
#[verifier::external_body]
pub struct ExLazyFrame(polars::prelude::LazyFrame);

/// polars' `LazyGroupBy`: a lazy query whose rows are grouped.
#[verifier::external_type_specification]
#[verifier::external_body]
pub struct ExLazyGroupBy(polars::prelude::LazyGroupBy);

/// polars' `Expr`: an expression over columns.
#[verifier::external_type_specification]
#[verifier::external_body]
pub struct ExExpr(polars::prelude::Expr);

/// polars' `DataType`: the type of a column.
#[verifier::external_type_specification]
#[verifier::external_body]
pub struct ExDataType(polars::prelude::DataType);

/// polars' `DataFrame`: a table, columns of equal height under distinct names.
#[verifier::external_type_specification]
#[verifier::external_body]
pub struct ExDataFrame(polars::prelude::DataFrame);

/// polars' `Column`: a column of a table. Nothing here handles one; Verus
/// asks for the type because a table can be indexed for its columns.
#[verifier::external_type_specification]
#[verifier::external_body]
pub struct ExColumn(polars::prelude::Column);

/// polars' `PolarsError`: a failure of the engine. Nothing here hands one
/// on; Verus asks for the type because arithmetic on columns can fail.
#[verifier::external_type_specification]
#[verifier::external_body]
pub struct ExPolarsError(polars::prelude::PolarsError);

/// The number of rows of a table.
pub uninterp spec fn height_of(table: DataFrame) -> nat;

/// The names of the columns of a table, in the order of the columns.
pub uninterp spec fn columns_of(table: DataFrame) -> Seq<Seq<char>>;

/// The types of the columns of a table, each as the engine spells it, in the
/// order of the columns.
pub uninterp spec fn types_of(table: DataFrame) -> Seq<Seq<char>>;

/// A type, as the engine spells it.
pub uninterp spec fn type_spelling(dtype: polars::prelude::DataType) -> Seq<char>;

/// The table that CSV text is read as; none where the text cannot be read.
pub uninterp spec fn csv_read(text: Seq<char>) -> Option<DataFrame>;

/// The table that JSON text is read as; none where the text cannot be read.
pub uninterp spec fn json_read(text: Seq<char>) -> Option<DataFrame>;

/// The bytes that are written of a table as CSV; none where the table cannot
/// be written.
pub uninterp spec fn csv_written(table: DataFrame) -> Option<Seq<u8>>;

/// The bytes that are written of a table as JSON; none where the table cannot
/// be written.
pub uninterp spec fn json_written(table: DataFrame) -> Option<Seq<u8>>;

/// `CsvReader::new(..).finish()`: reads a table from CSV text, or gives the
/// message of the error. The contract names the table that comes of a text
/// and says of the message nothing: polars may add a backtrace to it. Where
/// the process has asked polars to panic on errors, text that cannot be read
/// panics.
#[verifier::external_body]
pub(crate) fn read_csv(text: String) -> (read: Result<DataFrame, String>)
    ensures
        match read {
            Ok(table) => csv_read(text@) == Some(table),
            Err(_) => csv_read(text@) is None,
        },
{
    match polars::prelude::CsvReader::new(std::io::Cursor::new(text)).finish() {
        Ok(frame) => Ok(frame),
        Err(failure) => Err(failure.to_string()),
    }
}

/// `JsonReader::new(..).finish()`: reads a table from JSON text, or gives the
/// message of the error. The contract names the table that comes of a text
/// and says of the message nothing: polars may add a backtrace to it. Where
/// the process has asked polars to panic on errors, text that cannot be read
/// panics.
#[verifier::external_body]
pub(crate) fn read_json(text: String) -> (read: Result<DataFrame, String>)
    ensures
        match read {
            Ok(table) => json_read(text@) == Some(table),
            Err(_) => json_read(text@) is None,
        },
{
    match polars::prelude::JsonReader::new(std::io::Cursor::new(text)).finish() {
        Ok(frame) => Ok(frame),
        Err(failure) => Err(failure.to_string()),
    }
}

/// `CsvWriter::new(..).finish(..)`: writes a table as CSV, or gives the
/// message of the error. The contract names the bytes that are written of a
/// table, says of the message nothing, and says that the table keeps its rows
/// and its columns: the writer only reads it. Where the process has asked
/// polars to panic on errors, a table that cannot be written panics.
#[verifier::external_body]
pub(crate) fn write_csv(table: &mut DataFrame) -> (written: Result<Vec<u8>, String>)
    ensures
        match written {
            Ok(bytes) => csv_written(*old(table)) == Some(bytes@),
            Err(_) => csv_written(*old(table)) is None,
        },
        height_of(*final(table)) == height_of(*old(table)),
        columns_of(*final(table)) == columns_of(*old(table)),
        types_of(*final(table)) == types_of(*old(table)),
{
    let mut buf = Vec::new();
    match polars::prelude::CsvWriter::new(&mut buf).finish(table) {
        Ok(()) => Ok(buf),
        Err(failure) => Err(failure.to_string()),
    }
}

/// `JsonWriter::new(..).finish(..)`: writes a table as JSON, or gives the
/// message of the error. The contract names the bytes that are written of a
/// table, says of the message nothing, and says that the table keeps its rows
/// and its columns: the writer at most lays its columns out anew. Where the
/// process has asked polars to panic on errors, a table that cannot be
/// written panics.
#[verifier::external_body]
pub(crate) fn write_json(table: &mut DataFrame) -> (written: Result<Vec<u8>, String>)
    ensures
        match written {
            Ok(bytes) => json_written(*old(table)) == Some(bytes@),
            Err(_) => json_written(*old(table)) is None,
        },
        height_of(*final(table)) == height_of(*old(table)),
        columns_of(*final(table)) == columns_of(*old(table)),
        types_of(*final(table)) == types_of(*old(table)),
{
    let mut buf = Vec::new();
    match polars::prelude::JsonWriter::new(&mut buf).finish(table) {
        Ok(()) => Ok(buf),
        Err(failure) => Err(failure.to_string()),
    }
}

/// `String::from_utf8`: the text that bytes spell, and nothing where they are
/// not UTF-8. The contract says so over vstd's account of UTF-8.
#[verifier::external_body]
pub(crate) fn text_of(bytes: Vec<u8>) -> (text: Option<String>)
    ensures
        match text {
            Some(t) => vstd::utf8::valid_utf8(bytes@) && t@ == vstd::utf8::decode_utf8(bytes@),
            None => !vstd::utf8::valid_utf8(bytes@),
        },
{
    String::from_utf8(bytes).ok()
}

/// `DataFrame::height`: the number of rows, which the contract names.
#[verifier::external_body]
pub(crate) fn rows(table: &DataFrame) -> (height: usize)
    ensures
        height == height_of(*table),
{
    table.height()
}

/// `DataFrame::width`: the number of columns, which the contract says is the
/// number of their names.
#[verifier::external_body]
pub(crate) fn columns(table: &DataFrame) -> (width: usize)
    ensures
        width == columns_of(*table).len(),
{
    table.width()
}

/// `DataFrame::fields`: the name and the type of each column, in the order of
/// the columns. The contract says that the names are those of the columns,
/// and the types, as spelled, those of the columns.
#[verifier::external_body]
pub(crate) fn fields(table: &DataFrame) -> (fields: Vec<(String, ColumnType)>)
    ensures
        fields@.len() == columns_of(*table).len(),
        fields@.len() == types_of(*table).len(),
        forall|i: int|
            0 <= i < fields@.len() ==> (#[trigger] fields@[i]).0@ == columns_of(*table)[i],
        forall|i: int|
            0 <= i < fields@.len() ==> type_spelling((#[trigger] fields@[i]).1.0) == types_of(
                *table,
            )[i],
{
    table.fields().into_iter().map(|f| (f.name.to_string(), ColumnType(f.dtype))).collect()
}

/// `DataType`'s `to_string`: the type as the engine spells it, which the
/// contract names.
#[verifier::external_body]
pub(crate) fn spelled_type(dtype: &polars::prelude::DataType) -> (text: String)
    ensures
        text@ == type_spelling(*dtype),
{
    dtype.to_string()
}

/// The shape of an expression of the engine.
pub uninterp spec fn expr_shape(expr: polars::prelude::Expr) -> ExprShape;

/// The shapes of a list of expressions of the engine.
pub open spec fn expr_shapes(exprs: Seq<polars::prelude::Expr>) -> Seq<ExprShape> {
    Seq::new(exprs.len(), |i: int| expr_shape(exprs[i]))
}

/// The number that a numeral spells, by the bits of its 64-bit floating-point
/// form as the standard library reads it; none where it reads no number.
pub uninterp spec fn numeral_number(numeral: Seq<char>) -> Option<u64>;

/// The table that a query runs over.
pub uninterp spec fn frame_source(frame: polars::prelude::LazyFrame) -> DataFrame;

/// The stages that a query has been asked for, in the order of the asking.
pub uninterp spec fn frame_stages(frame: polars::prelude::LazyFrame) -> Seq<Stage>;

/// Whether the streaming engine has been asked for.
pub uninterp spec fn frame_streams(frame: polars::prelude::LazyFrame) -> bool;

/// The table that a grouped query runs over.
pub uninterp spec fn grouped_source(groups: polars::prelude::LazyGroupBy) -> DataFrame;

/// The stages that a grouped query had been asked for before it was grouped.
pub uninterp spec fn grouped_stages(groups: polars::prelude::LazyGroupBy) -> Seq<Stage>;

/// Whether the streaming engine had been asked for before the query was
/// grouped.
pub uninterp spec fn grouped_streams(groups: polars::prelude::LazyGroupBy) -> bool;

/// The keys by which a grouped query is grouped.
pub uninterp spec fn grouped_keys(groups: polars::prelude::LazyGroupBy) -> Seq<ExprShape>;

/// What comes of running stages over a table, with the streaming engine
/// asked for or not, where the run succeeds: the number of rows and the names
/// of the columns of the result. None where the run fails.
pub uninterp spec fn run_shape(table: DataFrame, stages: Seq<Stage>, streams: bool) -> Option<
    (nat, Seq<Seq<char>>),
>;

/// `col`: the column of a name; the name `*` gives every column.
#[verifier::external_body]
pub(crate) fn column(name: &str) -> (expr: polars::prelude::Expr)
    ensures
        expr_shape(expr) == column_shape(name@),
{
    polars::prelude::col(name)
}

/// `str::parse` to a floating-point number, then `Expr::Literal` of a dynamic
/// float: the number that a numeral spells, and nothing where it spells none.
#[verifier::external_body]
pub(crate) fn number(numeral: &str) -> (expr: Option<polars::prelude::Expr>)
    ensures
        match expr {
            Some(e) => numeral_number(numeral@) matches Some(bits) && expr_shape(e)
                == ExprShape::Number(bits),
            None => numeral_number(numeral@) is None,
        },
{
    let float = polars_plan::plans::DynLiteralValue::Float;
    let dynamic = polars_plan::plans::LiteralValue::Dyn;
    numeral.parse().ok().map(|v| polars::prelude::Expr::Literal(dynamic(float(v))))
}

/// `Expr::Literal` of the dynamic float that `Default` gives: the number zero.
#[verifier::external_body]
pub(crate) fn zero() -> (expr: polars::prelude::Expr)
    ensures
        expr_shape(expr) == ExprShape::Number(0),
{
    let float = polars_plan::plans::DynLiteralValue::Float(Default::default());
    polars::prelude::Expr::Literal(polars_plan::plans::LiteralValue::Dyn(float))
}

/// `Expr`'s `+`: the sum of two expressions.
#[verifier::external_body]
pub(crate) fn sum_of_two(
    left: polars::prelude::Expr,
    right: polars::prelude::Expr,
) -> (expr: polars::prelude::Expr)
    ensures
        expr_shape(expr) == (ExprShape::Binary {
            left: Box::new(expr_shape(left)),
            operator: Operator::Plus,
            right: Box::new(expr_shape(right)),
        }),
{
    left + right
}

/// `Expr`'s `-`: the difference of two expressions.
#[verifier::external_body]
pub(crate) fn difference(
    left: polars::prelude::Expr,
    right: polars::prelude::Expr,
) -> (expr: polars::prelude::Expr)
    ensures
        expr_shape(expr) == (ExprShape::Binary {
            left: Box::new(expr_shape(left)),
            operator: Operator::Minus,
            right: Box::new(expr_shape(right)),
        }),
{
    left - right
}

/// `Expr`'s `*`: the product of two expressions.
#[verifier::external_body]
pub(crate) fn product(
    left: polars::prelude::Expr,
    right: polars::prelude::Expr,
) -> (expr: polars::prelude::Expr)
    ensures
        expr_shape(expr) == (ExprShape::Binary {
            left: Box::new(expr_shape(left)),
            operator: Operator::Multiply,
            right: Box::new(expr_shape(right)),
        }),
{
    left * right
}

/// `Expr`'s `/`: the quotient of two expressions.
#[verifier::external_body]
pub(crate) fn quotient(
    left: polars::prelude::Expr,
    right: polars::prelude::Expr,
) -> (expr: polars::prelude::Expr)
    ensures
        expr_shape(expr) == (ExprShape::Binary {
            left: Box::new(expr_shape(left)),
            operator: Operator::Divide,
            right: Box::new(expr_shape(right)),
        }),
{
    left / right
}

/// `Expr`'s `%`: the remainder of one expression by another.
#[verifier::external_body]
pub(crate) fn remainder(
    left: polars::prelude::Expr,
    right: polars::prelude::Expr,
) -> (expr: polars::prelude::Expr)
    ensures
        expr_shape(expr) == (ExprShape::Binary {
            left: Box::new(expr_shape(left)),
            operator: Operator::Modulus,
            right: Box::new(expr_shape(right)),
        }),
{
    left % right
}

/// `Expr::eq`: whether two expressions are equal.
#[verifier::external_body]
pub(crate) fn equal(
    left: polars::prelude::Expr,
    right: polars::prelude::Expr,
) -> (expr: polars::prelude::Expr)
    ensures
        expr_shape(expr) == (ExprShape::Binary {
            left: Box::new(expr_shape(left)),
            operator: Operator::Eq,
            right: Box::new(expr_shape(right)),
        }),
{
    left.eq(right)
}

/// `Expr::neq`: whether two expressions differ.
#[verifier::external_body]
pub(crate) fn not_equal(
    left: polars::prelude::Expr,
    right: polars::prelude::Expr,
) -> (expr: polars::prelude::Expr)
    ensures
        expr_shape(expr) == (ExprShape::Binary {
            left: Box::new(expr_shape(left)),
            operator: Operator::NotEq,
            right: Box::new(expr_shape(right)),
        }),
{
    left.neq(right)
}

/// `Expr::gt`: whether the left expression is the greater.
#[verifier::external_body]
pub(crate) fn greater(
    left: polars::prelude::Expr,
    right: polars::prelude::Expr,
) -> (expr: polars::prelude::Expr)
    ensures
        expr_shape(expr) == (ExprShape::Binary {
            left: Box::new(expr_shape(left)),
            operator: Operator::Gt,
            right: Box::new(expr_shape(right)),
        }),
{
    left.gt(right)
}

/// `Expr::gt_eq`: whether the left expression is not the less.
#[verifier::external_body]
pub(crate) fn greater_or_equal(
    left: polars::prelude::Expr,
    right: polars::prelude::Expr,
) -> (expr: polars::prelude::Expr)
    ensures
        expr_shape(expr) == (ExprShape::Binary {
            left: Box::new(expr_shape(left)),
            operator: Operator::GtEq,
            right: Box::new(expr_shape(right)),
        }),
{
    left.gt_eq(right)
}

/// `Expr::lt`: whether the left expression is the less.
#[verifier::external_body]
pub(crate) fn less(
    left: polars::prelude::Expr,
    right: polars::prelude::Expr,
) -> (expr: polars::prelude::Expr)
    ensures
        expr_shape(expr) == (ExprShape::Binary {
            left: Box::new(expr_shape(left)),
            operator: Operator::Lt,
            right: Box::new(expr_shape(right)),
        }),
{
    left.lt(right)
}

/// `Expr::lt_eq`: whether the left expression is not the greater.
#[verifier::external_body]
pub(crate) fn less_or_equal(
    left: polars::prelude::Expr,
    right: polars::prelude::Expr,
) -> (expr: polars::prelude::Expr)
    ensures
        expr_shape(expr) == (ExprShape::Binary {
            left: Box::new(expr_shape(left)),
            operator: Operator::LtEq,
            right: Box::new(expr_shape(right)),
        }),
{
    left.lt_eq(right)
}

/// `Expr::and`: whether both expressions hold.
#[verifier::external_body]
pub(crate) fn both(
    left: polars::prelude::Expr,
    right: polars::prelude::Expr,
) -> (expr: polars::prelude::Expr)
    ensures
        expr_shape(expr) == (ExprShape::Binary {
            left: Box::new(expr_shape(left)),
            operator: Operator::And,
            right: Box::new(expr_shape(right)),
        }),
{
    left.and(right)
}

/// `Expr::or`: whether one of two expressions holds.
#[verifier::external_body]
pub(crate) fn either(
    left: polars::prelude::Expr,
    right: polars::prelude::Expr,
) -> (expr: polars::prelude::Expr)
    ensures
        expr_shape(expr) == (ExprShape::Binary {
            left: Box::new(expr_shape(left)),
            operator: Operator::Or,
            right: Box::new(expr_shape(right)),
        }),
{
    left.or(right)
}

/// `all`: every column.
#[verifier::external_body]
pub(crate) fn every_column() -> (expr: polars::prelude::Expr)
    ensures
        expr_shape(expr) == ExprShape::Every,
{
    polars::prelude::all()
}

/// `Expr::alias`: an expression under a new name.
#[verifier::external_body]
pub(crate) fn renamed(expr: polars::prelude::Expr, name: &str) -> (named: polars::prelude::Expr)
    ensures
        expr_shape(named) == (ExprShape::Named { expr: Box::new(expr_shape(expr)), name: name@ }),
{
    expr.alias(name)
}

/// `len`: the number of rows of a group.
#[verifier::external_body]
pub(crate) fn row_count() -> (expr: polars::prelude::Expr)
    ensures
        expr_shape(expr) == ExprShape::Rows,
{
    polars::prelude::len()
}

/// `Expr::count`: the number of values of an expression that are not null.
#[verifier::external_body]
pub(crate) fn count_of(expr: polars::prelude::Expr) -> (reduced: polars::prelude::Expr)
    ensures
        expr_shape(reduced) == (ExprShape::Reduced {
            function: AggregateFunction::Count,
            expr: Box::new(expr_shape(expr)),
        }),
{
    expr.count()
}

/// `Expr::max`: the greatest value of an expression.
#[verifier::external_body]
pub(crate) fn max_of(expr: polars::prelude::Expr) -> (reduced: polars::prelude::Expr)
    ensures
        expr_shape(reduced) == (ExprShape::Reduced {
            function: AggregateFunction::Max,
            expr: Box::new(expr_shape(expr)),
        }),
{
    expr.max()
}

/// `Expr::min`: the least value of an expression.
#[verifier::external_body]
pub(crate) fn min_of(expr: polars::prelude::Expr) -> (reduced: polars::prelude::Expr)
    ensures
        expr_shape(reduced) == (ExprShape::Reduced {
            function: AggregateFunction::Min,
            expr: Box::new(expr_shape(expr)),
        }),
{
    expr.min()
}

/// `Expr::sum`: the sum of the values of an expression.
#[verifier::external_body]
pub(crate) fn sum_of(expr: polars::prelude::Expr) -> (reduced: polars::prelude::Expr)
    ensures
        expr_shape(reduced) == (ExprShape::Reduced {
            function: AggregateFunction::Sum,
            expr: Box::new(expr_shape(expr)),
        }),
{
    expr.sum()
}

/// `Expr::mean`: the mean of the values of an expression.
#[verifier::external_body]
pub(crate) fn mean_of(expr: polars::prelude::Expr) -> (reduced: polars::prelude::Expr)
    ensures
        expr_shape(reduced) == (ExprShape::Reduced {
            function: AggregateFunction::Avg,
            expr: Box::new(expr_shape(expr)),
        }),
{
    expr.mean()
}

/// `IntoLazy::lazy`: a query over the table, with no stage yet.
#[verifier::external_body]
pub(crate) fn lazy(table: DataFrame) -> (frame: polars::prelude::LazyFrame)
    ensures
        frame_source(frame) == table,
        frame_stages(frame) == Seq::<Stage>::empty(),
        !frame_streams(frame),
{
    table.lazy()
}

/// `LazyFrame::filter`: adds the stage that keeps the rows on which a
/// predicate holds.
#[verifier::external_body]
pub(crate) fn filter(
    frame: polars::prelude::LazyFrame,
    predicate: polars::prelude::Expr,
) -> (filtered: polars::prelude::LazyFrame)
    ensures
        frame_source(filtered) == frame_source(frame),
        frame_streams(filtered) == frame_streams(frame),
        frame_stages(filtered) == frame_stages(frame).push(Stage::Filter(expr_shape(predicate))),
{
    frame.filter(predicate)
}

/// `LazyFrame::sort` with `SortMultipleOptions::with_order_descending_multi`:
/// adds the stage that sorts by columns, each ascending or descending as its
/// flag says. There is one flag for each column.
#[verifier::external_body]
pub(crate) fn sort(
    frame: polars::prelude::LazyFrame,
    by: Vec<String>,
    descending: Vec<bool>,
) -> (sorted: polars::prelude::LazyFrame)
    requires
        by@.len() == descending@.len(),
    ensures
        frame_source(sorted) == frame_source(frame),
        frame_streams(sorted) == frame_streams(frame),
        frame_stages(sorted) == frame_stages(frame).push(
            Stage::Sort { by: by.deep_view(), descending: descending@ },
        ),
{
    let options = polars::prelude::SortMultipleOptions::default();
    frame.sort(by, options.with_order_descending_multi(descending))
}

/// `LazyFrame::slice`: adds the stage that keeps `len` rows from `offset` on.
#[verifier::external_body]
pub(crate) fn slice(
    frame: polars::prelude::LazyFrame,
    offset: i64,
    len: u32,
) -> (sliced: polars::prelude::LazyFrame)
    ensures
        frame_source(sliced) == frame_source(frame),
        frame_streams(sliced) == frame_streams(frame),
        frame_stages(sliced) == frame_stages(frame).push(Stage::Slice { offset, length: len }),
{
    frame.slice(offset, len)
}

/// `LazyFrame::select`: adds the stage that computes expressions as the new
/// columns.
#[verifier::external_body]
pub(crate) fn select(
    frame: polars::prelude::LazyFrame,
    exprs: Vec<polars::prelude::Expr>,
) -> (selected: polars::prelude::LazyFrame)
    ensures
        frame_source(selected) == frame_source(frame),
        frame_streams(selected) == frame_streams(frame),
        frame_stages(selected) == frame_stages(frame).push(Stage::Select(expr_shapes(exprs@))),
{
    frame.select(exprs)
}

/// `LazyFrame::group_by`: the query, grouped by keys; no stage is added yet.
#[verifier::external_body]
pub(crate) fn group_by(
    frame: polars::prelude::LazyFrame,
    keys: Vec<polars::prelude::Expr>,
) -> (groups: polars::prelude::LazyGroupBy)
    ensures
        grouped_source(groups) == frame_source(frame),
        grouped_streams(groups) == frame_streams(frame),
        grouped_stages(groups) == frame_stages(frame),
        grouped_keys(groups) == expr_shapes(keys@),
{
    frame.group_by(keys)
}

/// `LazyGroupBy::agg`: adds the stage that groups by the keys and reduces
/// each group to one row.
#[verifier::external_body]
pub(crate) fn agg(
    groups: polars::prelude::LazyGroupBy,
    aggs: Vec<polars::prelude::Expr>,
) -> (frame: polars::prelude::LazyFrame)
    ensures
        frame_source(frame) == grouped_source(groups),
        frame_streams(frame) == grouped_streams(groups),
        frame_stages(frame) == grouped_stages(groups).push(
            Stage::Aggregate { keys: grouped_keys(groups), aggregates: expr_shapes(aggs@) },
        ),
{
    groups.agg(aggs)
}

/// `LazyFrame::with_new_streaming`: asks for the streaming engine. The table
/// and the stages stay as they are.
#[verifier::external_body]
pub(crate) fn streaming(frame: polars::prelude::LazyFrame) -> (asked: polars::prelude::LazyFrame)
    ensures
        frame_source(asked) == frame_source(frame),
        frame_stages(asked) == frame_stages(frame),
        frame_streams(asked),
{
    frame.with_new_streaming(true)
}

/// `LazyFrame::collect`: runs a query, and gives the table that comes of it
/// or the message of the error. The contract names, for a run that succeeds,
/// the height and the columns of the result by the table, the stages and
/// whether the streaming engine was asked for, and says of the message
/// nothing: polars may add a backtrace to it. Where the process has asked
/// polars to panic on errors, a run that fails panics; where it has forced
/// the streaming engine on every query, a run that this engine cannot do
/// panics too.
#[verifier::external_body]
pub(crate) fn collect(frame: polars::prelude::LazyFrame) -> (ran: Result<DataFrame, String>)
    ensures
        match ran {
            Ok(result) => run_shape(
                frame_source(frame),
                frame_stages(frame),
                frame_streams(frame),
            ) == Some((height_of(result), columns_of(result))),
            Err(_) => run_shape(frame_source(frame), frame_stages(frame), frame_streams(frame))
                is None,
        },
{
    match frame.collect() {
        Ok(result) => Ok(result),
        Err(failure) => Err(failure.to_string()),
    }
}

} // verus!
