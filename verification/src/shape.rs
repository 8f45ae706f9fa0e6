//! What the engine is asked: the shape of an expression, and the stages of a
//! query in the order in which they are asked for.

use crate::engine::numeral_number;
use crate::expr::AggregateFunction;
use crate::expr::Expression;
use crate::expr::ExpressionView;
use crate::expr::Operator;
use crate::plan::PlanView;
use vstd::prelude::*;

verus! {

/// The shape of an expression of the engine.
pub enum ExprShape {
    /// The column of a name.
    Column(Seq<char>),
    /// Every column.
    Every,
    /// A number, by the bits of its 64-bit floating-point form.
    Number(u64),
    /// Two expressions joined by an operator.
    Binary { left: Box<ExprShape>, operator: Operator, right: Box<ExprShape> },
    /// An expression under a new name.
    Named { expr: Box<ExprShape>, name: Seq<char> },
    /// An expression reduced over the rows of a group.
    Reduced { function: AggregateFunction, expr: Box<ExprShape> },
    /// The number of rows of a group.
    Rows,
}

/// A stage of a query.
pub enum Stage {
    /// Keep the rows on which a predicate holds.
    Filter(ExprShape),
    /// Sort by columns, each descending where its flag says so.
    Sort { by: Seq<Seq<char>>, descending: Seq<bool> },
    /// Keep `length` rows after the first `offset`.
    Slice { offset: i64, length: u32 },
    /// Compute expressions as the new columns.
    Select(Seq<ExprShape>),
    /// Group by keys and reduce each group to one row.
    Aggregate { keys: Seq<ExprShape>, aggregates: Seq<ExprShape> },
}

/// The shape that a column name is asked for as: the name `*` asks for every
/// column.
pub open spec fn column_shape(name: Seq<char>) -> ExprShape {
    if name == seq!['*'] {
        ExprShape::Every
    } else {
        ExprShape::Column(name)
    }
}

/// The number that a numeral is asked for as: the number that it spells, and
/// zero where it spells none.
pub open spec fn number_shape(numeral: Seq<char>) -> ExprShape {
    match numeral_number(numeral) {
        Some(bits) => ExprShape::Number(bits),
        None => ExprShape::Number(0),
    }
}

/// The shape that an expression is asked for as. A count of every column is
/// the number of rows.
pub open spec fn shape_of(e: ExpressionView) -> ExprShape
    decreases e,
{
    match e {
        Expression::Column(name) => column_shape(name),
        Expression::Literal(numeral) => number_shape(numeral),
        Expression::BinaryOp { left, operator, right } => ExprShape::Binary {
            left: Box::new(shape_of(*left)),
            operator,
            right: Box::new(shape_of(*right)),
        },
        Expression::Wildcard => ExprShape::Every,
        Expression::Alias { expr, name } => ExprShape::Named {
            expr: Box::new(shape_of(*expr)),
            name,
        },
        Expression::Aggregate { function, expr } => if function is Count && *expr is Wildcard {
            ExprShape::Rows
        } else {
            ExprShape::Reduced { function, expr: Box::new(shape_of(*expr)) }
        },
    }
}

/// The shapes that a list of expressions is asked for as.
pub open spec fn shapes_of(list: Seq<ExpressionView>) -> Seq<ExprShape> {
    Seq::new(list.len(), |i: int| shape_of(list[i]))
}

/// The stage that a predicate adds: a filter where there is one.
pub open spec fn filter_stages(filter: Option<ExpressionView>) -> Seq<Stage> {
    match filter {
        Some(predicate) => seq![Stage::Filter(shape_of(predicate))],
        None => Seq::empty(),
    }
}

/// The stage that a window adds: a slice where there is one.
pub open spec fn slice_stages(slice: Option<crate::plan::Window>) -> Seq<Stage> {
    match slice {
        Some(window) => seq![Stage::Slice { offset: window.offset, length: window.length }],
        None => Seq::empty(),
    }
}

/// The stages that a plan asks of the engine, in order.
///
/// An aggregation filters, groups and reduces, and projects. A selection
/// filters, sorts, slices and projects.
pub open spec fn stages_of(plan: PlanView) -> Seq<Stage> {
    match plan {
        PlanView::Aggregate { filter, keys, aggregation, projection } => filter_stages(filter)
            + seq![
            Stage::Aggregate {
                keys: Seq::new(keys.len(), |i: int| column_shape(keys[i])),
                aggregates: shapes_of(aggregation),
            },
            Stage::Select(shapes_of(projection)),
        ],
        PlanView::Select { filter, sort, slice, projection } => filter_stages(filter) + seq![
            Stage::Sort {
                by: Seq::new(sort.len(), |i: int| sort[i].0),
                descending: Seq::new(sort.len(), |i: int| sort[i].1),
            },
        ] + slice_stages(slice) + seq![Stage::Select(shapes_of(projection))],
    }
}

} // verus!
