//! Running a translated query against fetched data.

use crate::convert::Sql;
use crate::engine::agg;
use crate::engine::both;
use crate::engine::collect;
use crate::engine::column;
use crate::engine::count_of;
use crate::dataset::csv_of;
use crate::engine::difference;
use crate::engine::either;
use crate::engine::equal;
use crate::engine::every_column;
use crate::engine::filter;
use crate::engine::greater;
use crate::engine::greater_or_equal;
use crate::engine::group_by;
use crate::dataset::json_of;
use crate::engine::lazy;
use crate::engine::less;
use crate::engine::less_or_equal;
use crate::engine::max_of;
use crate::engine::mean_of;
use crate::engine::min_of;
use crate::engine::not_equal;
use crate::engine::expr_shape;
use crate::engine::expr_shapes;
use crate::engine::frame_stages;
use crate::engine::number;
use crate::engine::run_shape;
use crate::engine::zero;
use crate::engine::product;
use crate::engine::quotient;
use crate::engine::remainder;
use crate::engine::renamed;
use crate::engine::row_count;
use crate::engine::select;
use crate::engine::slice;
use crate::engine::sort;
use crate::engine::streaming;
use crate::engine::sum_of;
use crate::engine::sum_of_two;
use crate::dataset::table_columns;
use crate::dataset::table_height;
use crate::dataset::table_types;
use crate::dataset::ColumnType;
use crate::dataset::DataSet;
use crate::dataset::is_schema;
use crate::dataset::is_written;
use crate::error::CustomError;
use crate::expr::AggregateFunction;
use crate::expr::expression_view;
use crate::expr::Expression;
use crate::expr::Operator;
use crate::loader::table_read;
use crate::loader::detect_content;
use crate::loader::format_asked;
use crate::loader::formats;
use crate::loader::tag_of;
use crate::loader::is_load_failure;
use crate::loader::FormatType;
use crate::plan::plan_of;
use crate::plan::Plan;
use crate::shape::column_shape;
use crate::shape::shape_of;
use crate::shape::shapes_of;
use crate::shape::stages_of;
use crate::shape::Stage;
use vstd::prelude::*;

verus! {

/// The expression of the engine that an expression stands for. A numeral
/// that spells no number counts as zero, and a count of every column is the
/// number of rows.
fn engine_expr(e: &Expression) -> (expr: polars::prelude::Expr)
    ensures
        expr_shape(expr) == shape_of(e.deep_view()),
    decreases *e,
{
    match e {
        Expression::Column(name) => column(name.as_str()),
        Expression::Literal(numeral) => match number(numeral.as_str()) {
            Some(spelled) => spelled,
            None => zero(),
        },
        Expression::BinaryOp { left, operator, right } => {
            let l = engine_expr(left);
            let r = engine_expr(right);
            match operator {
                Operator::Plus => sum_of_two(l, r),
                Operator::Minus => difference(l, r),
                Operator::Multiply => product(l, r),
                Operator::Divide => quotient(l, r),
                Operator::Modulus => remainder(l, r),
                Operator::Eq => equal(l, r),
                Operator::NotEq => not_equal(l, r),
                Operator::Gt => greater(l, r),
                Operator::GtEq => greater_or_equal(l, r),
                Operator::Lt => less(l, r),
                Operator::LtEq => less_or_equal(l, r),
                Operator::And => both(l, r),
                Operator::Or => either(l, r),
            }
        },
        Expression::Wildcard => every_column(),
        Expression::Alias { expr, name } => renamed(engine_expr(expr), name.as_str()),
        Expression::Aggregate { function, expr } => {
            if let (AggregateFunction::Count, Expression::Wildcard) = (function, &**expr) {
                assert(expression_view(**expr) is Wildcard);
                return row_count();
            }
            assert(!(*function is Count && expression_view(**expr) is Wildcard));
            let of = engine_expr(expr);
            match function {
                AggregateFunction::Count => count_of(of),
                AggregateFunction::Max => max_of(of),
                AggregateFunction::Min => min_of(of),
                AggregateFunction::Sum => sum_of(of),
                AggregateFunction::Avg => mean_of(of),
            }
        },
    }
}

/// The expressions of the engine that a list of expressions stands for.
fn engine_exprs(list: &Vec<Expression>) -> (exprs: Vec<polars::prelude::Expr>)
    ensures
        expr_shapes(exprs@) == shapes_of(list.deep_view()),
{
    let mut exprs: Vec<polars::prelude::Expr> = Vec::new();
    let mut i: usize = 0;
    while i < list.len()
        invariant
            i <= list.len(),
            exprs@.len() == i,
            forall|j: int| 0 <= j < i ==> expr_shape(#[trigger] exprs@[j]) == shape_of(
                list@[j].deep_view(),
            ),
        decreases list.len() - i,
    {
        exprs.push(engine_expr(&list[i]));
        i = i + 1;
    }
    assert(expr_shapes(exprs@) =~= shapes_of(list.deep_view()));
    exprs
}

/// The error of a query that the engine could not run, from its message.
pub fn engine_failure(message: String) -> (e: CustomError)
    ensures
        e.deep_view() == (CustomError::<Seq<char>>::PolarsError { error: message@ }),
{
    CustomError::PolarsError { error: message }
}

/// What the engine gave for a query, as the answer to it: the table where
/// there is one, and else an error of the engine that carries the message.
pub fn answered(ran: Result<DataSet, String>) -> (r: Result<DataSet, CustomError>)
    ensures
        match ran {
            Ok(table) => r == Ok::<DataSet, CustomError>(table),
            Err(message) => r matches Err(e) && e.deep_view() == (CustomError::<
                Seq<char>,
            >::PolarsError { error: message@ }),
        },
{
    match ran {
        Ok(table) => Ok(table),
        Err(message) => Err(engine_failure(message)),
    }
}

/// Whether `r` is what comes of running stages over a table on the streaming
/// engine: where the run succeeds, a table with the rows and the columns that
/// the run gives; where it fails, an error of the engine.
pub open spec fn is_run(
    table: DataSet,
    stages: Seq<Stage>,
    r: Result<DataSet, CustomError>,
) -> bool {
    match run_shape(table.0, stages, true) {
        Some((height, names)) => {
            &&& r matches Ok(result)
            &&& table_height(result) == height
            &&& table_columns(result) == names
        },
        None => r matches Err(e) && e is PolarsError,
    }
}

/// Runs a plan against a table: the engine is asked for the stages of the
/// plan, in order, over the table, on its streaming engine, and what it gives
/// is the answer. A
/// failure of the engine, such as a column that the table does not have, is
/// the one error there can be.
pub fn execute(plan: &Plan, table: DataSet) -> (r: Result<DataSet, CustomError>)
    ensures
        is_run(table, stages_of(plan.deep_view()), r),
{
    let frame = lazy(table.0);
    let frame = match plan {
        Plan::Aggregate { filter: condition, keys, aggregation, projection } => {
            let frame = match condition {
                Some(predicate) => filter(frame, engine_expr(predicate)),
                None => frame,
            };
            assert(frame_stages(frame) =~= crate::shape::filter_stages(condition.deep_view()));
            let mut by: Vec<polars::prelude::Expr> = Vec::new();
            let mut i: usize = 0;
            while i < keys.len()
                invariant
                    i <= keys.len(),
                    by@.len() == i,
                    forall|j: int| 0 <= j < i ==> expr_shape(#[trigger] by@[j]) == column_shape(
                        keys@[j]@,
                    ),
                decreases keys.len() - i,
            {
                by.push(column(keys[i].as_str()));
                i = i + 1;
            }
            let ghost key_shapes = Seq::new(
                keys.deep_view().len(),
                |i: int| column_shape(keys.deep_view()[i]),
            );
            assert(expr_shapes(by@) =~= key_shapes);
            let frame = agg(group_by(frame, by), engine_exprs(aggregation));
            let frame = select(streaming(frame), engine_exprs(projection));
            assert(frame_stages(frame) =~= stages_of(plan.deep_view()));
            frame
        },
        Plan::Select { filter: condition, sort: order, slice: kept, projection } => {
            let frame = match condition {
                Some(predicate) => filter(frame, engine_expr(predicate)),
                None => frame,
            };
            assert(frame_stages(frame) =~= crate::shape::filter_stages(condition.deep_view()));
            let mut by: Vec<String> = Vec::new();
            let mut descending: Vec<bool> = Vec::new();
            let mut i: usize = 0;
            while i < order.len()
                invariant
                    i <= order.len(),
                    by@.len() == i,
                    descending@.len() == i,
                    forall|j: int| 0 <= j < i ==> (#[trigger] by@[j])@ == order@[j].0@,
                    forall|j: int| 0 <= j < i ==> #[trigger] descending@[j] == order@[j].1,
                decreases order.len() - i,
            {
                by.push(order[i].0.clone());
                descending.push(order[i].1);
                i = i + 1;
            }
            let ghost keys = order.deep_view();
            assert(by.deep_view() =~= Seq::new(keys.len(), |i: int| keys[i].0));
            assert(descending@ =~= Seq::new(keys.len(), |i: int| keys[i].1));
            let frame = sort(frame, by, descending);
            let ghost sorted = frame_stages(frame);
            let frame = match kept {
                Some(window) => slice(frame, window.offset, window.length),
                None => frame,
            };
            assert(frame_stages(frame) =~= sorted + crate::shape::slice_stages(*kept));
            let frame = streaming(select(frame, engine_exprs(projection)));
            assert(frame_stages(frame) =~= stages_of(plan.deep_view()));
            frame
        },
    };
    answered(
        match collect(frame) {
            Ok(result) => Ok(DataSet(result)),
            Err(message) => Err(message),
        },
    )
}

/// Answers a query from the text that was fetched from its source: the text
/// is read in the given format, and the plan of the query is run on the table
/// that is read.
///
/// Text that cannot be read is a fetch error without a URL; whatever fails
/// after that is a failure of the engine.
pub fn query(sql: Sql, format_type: FormatType, data: String) -> (r: Result<DataSet, CustomError>)
    ensures
        match table_read(format_type, data@) {
            None => r matches Err(e) && is_load_failure(e),
            Some(table) => is_run(table, stages_of(plan_of(sql.deep_view())), r),
        },
{
    let table = match detect_content(format_type, data).load() {
        Ok(table) => table,
        Err(e) => {
            return Err(e);
        },
    };
    let plan = sql.plan();
    execute(&plan, table)
}

/// Lists the columns of the text that was fetched from a source, each with
/// its name and its type, in the order of the table that is read. Nothing is
/// filtered, sorted or projected. Text that cannot be read is a fetch error
/// without a URL.
pub fn show_columns(format_type: FormatType, data: String) -> (r: Result<
    Vec<(String, ColumnType)>,
    CustomError,
>)
    ensures
        match table_read(format_type, data@) {
            Some(table) => r matches Ok(list) && is_schema(list@, table),
            None => r matches Err(e) && is_load_failure(e),
        },
{
    match detect_content(format_type, data).load() {
        Ok(table) => Ok(table.columns()),
        Err(e) => Err(e),
    }
}

/// The bytes that are written of a table in a format; none where the table
/// cannot be written.
pub open spec fn written_in(table: DataSet, output: FormatType) -> Option<Seq<u8>> {
    match output {
        FormatType::Csv => csv_of(table),
        FormatType::Json => json_of(table),
    }
}

/// Writes a table in a format: the text that the bytes spell which the engine
/// writes of the table in that format. A failure to write it is an error of
/// the engine. The table keeps its rows and its columns.
pub fn render(table: &mut DataSet, output: FormatType) -> (r: Result<String, CustomError>)
    ensures
        is_written(written_in(*old(table), output), r),
        table_height(*final(table)) == table_height(*old(table)),
        table_columns(*final(table)) == table_columns(*old(table)),
        table_types(*final(table)) == table_types(*old(table)),
{
    match output {
        FormatType::Csv => table.to_csv(),
        FormatType::Json => table.to_json(),
    }
}

/// Whether `r` is what writing in a format gives of some table with the
/// given rows and columns.
pub open spec fn is_answer_text(
    height: nat,
    names: Seq<Seq<char>>,
    output: FormatType,
    r: Result<String, CustomError>,
) -> bool {
    exists|result: DataSet|
        {
            &&& #[trigger] table_height(result) == height
            &&& table_columns(result) == names
            &&& is_written(written_in(result, output), r)
        }
}

/// What a call with two format tags gives for a query and the text that was
/// fetched from its source.
///
/// The tags come first: the error of the first tag that names no format is
/// the result, and then nothing is read, run or written; no format stands in
/// for a tag that names none. Else the text is read in the format of the
/// source, the plan of the query is run on the table, and the answer is
/// written in the format of the output.
pub open spec fn is_call_answer(
    sql: crate::convert::SqlView,
    format: Option<Seq<char>>,
    output: Option<Seq<char>>,
    data: Seq<char>,
    r: Result<String, CustomError>,
) -> bool {
    match format_asked(format) {
        Err(e) => r matches Err(error) && error.deep_view() == e,
        Ok(source) => match format_asked(output) {
            Err(e) => r matches Err(error) && error.deep_view() == e,
            Ok(answer) => match table_read(source, data) {
                None => r matches Err(e) && is_load_failure(e),
                Some(table) => match run_shape(table.0, stages_of(plan_of(sql)), true) {
                    None => r matches Err(e) && e is PolarsError,
                    Some((height, names)) => is_answer_text(height, names, answer, r),
                },
            },
        },
    }
}

/// Answers a query as text, for a call that names the format of the source
/// and the format of the answer by tags, each CSV where it is not given.
pub fn answer(sql: Sql, format: Option<&str>, output: Option<&str>, data: String) -> (r: Result<
    String,
    CustomError,
>)
    ensures
        is_call_answer(sql.deep_view(), tag_of(format), tag_of(output), data@, r),
{
    let (source, answer) = match formats(format, output) {
        Ok(pair) => pair,
        Err(e) => {
            return Err(e);
        },
    };
    let mut table = match query(sql, source, data) {
        Ok(table) => table,
        Err(e) => {
            return Err(e);
        },
    };
    let ghost result = table;
    let r = render(&mut table, answer);
    assert(is_written(written_in(result, answer), r));
    r
}

} // verus!
