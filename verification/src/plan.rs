//! What to ask of the table engine for a translated query.

use crate::convert::OrderType;
use crate::convert::Sql;
use crate::convert::SqlView;
use crate::expr::Expression;
use crate::expr::ExpressionView;
use vstd::prelude::*;

verus! {

/// How many rows a query keeps that names rows to skip and no limit.
pub const DEFAULT_LIMIT: u32 = 20;

/// A run of rows: `length` rows after the first `offset`.
#[derive(Debug, Clone, Copy, PartialEq, Eq)]
pub struct Window {
    pub offset: i64,
    pub length: u32,
}

impl DeepView for Window {
    type V = Window;

    open spec fn deep_view(&self) -> Window {
        *self
    }
}

/// The stages that the engine is to run, in the order of the fields.
#[derive(Debug, PartialEq)]
pub enum Plan {
    /// Filter, group by the keys, aggregate, then project.
    Aggregate {
        filter: Option<Expression>,
        keys: Vec<String>,
        aggregation: Vec<Expression>,
        projection: Vec<Expression>,
    },
    /// Filter, sort, slice, then project.
    Select {
        filter: Option<Expression>,
        /// The sort keys, each with whether it descends.
        sort: Vec<(String, bool)>,
        slice: Option<Window>,
        projection: Vec<Expression>,
    },
}

/// A plan in specifications.
pub enum PlanView {
    Aggregate {
        filter: Option<ExpressionView>,
        keys: Seq<Seq<char>>,
        aggregation: Seq<ExpressionView>,
        projection: Seq<ExpressionView>,
    },
    Select {
        filter: Option<ExpressionView>,
        sort: Seq<(Seq<char>, bool)>,
        slice: Option<Window>,
        projection: Seq<ExpressionView>,
    },
}

impl DeepView for Plan {
    type V = PlanView;

    open spec fn deep_view(&self) -> PlanView {
        match self {
            Plan::Aggregate { filter, keys, aggregation, projection } => PlanView::Aggregate {
                filter: filter.deep_view(),
                keys: keys.deep_view(),
                aggregation: aggregation.deep_view(),
                projection: projection.deep_view(),
            },
            Plan::Select { filter, sort, slice, projection } => PlanView::Select {
                filter: filter.deep_view(),
                sort: sort.deep_view(),
                slice: *slice,
                projection: projection.deep_view(),
            },
        }
    }
}

/// The rows to keep: none are dropped where neither rows to skip nor a limit
/// is given. Else the rows to skip default to none and the limit to
/// [`DEFAULT_LIMIT`]; a limit beyond what the engine can count is the most
/// that it can count.
pub open spec fn window_of(offset: Option<i64>, limit: Option<usize>) -> Option<Window> {
    if offset is None && limit is None {
        None
    } else {
        Some(
            Window {
                offset: match offset {
                    Some(rows) => rows,
                    None => 0,
                },
                length: match limit {
                    Some(rows) => if rows > u32::MAX {
                        u32::MAX
                    } else {
                        rows as u32
                    },
                    None => DEFAULT_LIMIT,
                },
            },
        )
    }
}

/// Computes the rows to keep.
pub fn window(offset: Option<i64>, limit: Option<usize>) -> (slice: Option<Window>)
    ensures
        slice == window_of(offset, limit),
{
    if offset.is_none() && limit.is_none() {
        return None;
    }
    let offset: i64 = match offset {
        Some(rows) => rows,
        None => 0,
    };
    let length: u32 = match limit {
        Some(rows) => if rows > 0xffff_ffff {
            0xffff_ffff
        } else {
            rows as u32
        },
        None => DEFAULT_LIMIT,
    };
    Some(Window { offset, length })
}

/// The sort keys as the engine takes them: each with whether it descends.
pub open spec fn engine_order(order_by: Seq<(Seq<char>, OrderType)>) -> Seq<(Seq<char>, bool)> {
    Seq::new(order_by.len(), |i: int| (order_by[i].0, order_by[i].1 is Desc))
}

/// The plan of a query.
///
/// A query that groups is filtered, grouped, aggregated and projected; it is
/// neither sorted nor sliced. Any other query is filtered, sorted, sliced and
/// projected.
pub open spec fn plan_of(sql: SqlView) -> PlanView {
    if sql.group_by.len() > 0 {
        PlanView::Aggregate {
            filter: sql.condition,
            keys: sql.group_by,
            aggregation: sql.aggregation,
            projection: sql.selection,
        }
    } else {
        PlanView::Select {
            filter: sql.condition,
            sort: engine_order(sql.order_by),
            slice: window_of(sql.offset, sql.limit),
            projection: sql.selection,
        }
    }
}

impl<'a> Sql<'a> {
    /// Plans the query.
    pub fn plan(self) -> (plan: Plan)
        ensures
            plan.deep_view() == plan_of(self.deep_view()),
    {
        if self.group_by.len() > 0 {
            return Plan::Aggregate {
                filter: self.condition,
                keys: self.group_by,
                aggregation: self.aggregation,
                projection: self.selection,
            };
        }
        let ghost keys = self.order_by.deep_view();
        let mut sort: Vec<(String, bool)> = Vec::new();
        let mut i: usize = 0;
        assert(sort.deep_view() =~= engine_order(keys).take(0));
        while i < self.order_by.len()
            invariant
                i <= self.order_by.len(),
                keys == self.order_by.deep_view(),
                sort.deep_view() == engine_order(keys).take(i as int),
            decreases self.order_by.len() - i,
        {
            let ghost done = sort.deep_view();
            let descends = match self.order_by[i].1 {
                OrderType::Desc => true,
                OrderType::Asc => false,
            };
            sort.push((self.order_by[i].0.clone(), descends));
            assert(keys[i as int] == self.order_by@[i as int].deep_view());
            assert(sort.deep_view() =~= done.push(engine_order(keys)[i as int]));
            assert(engine_order(keys).take(i + 1) =~= engine_order(keys).take(i as int).push(
                engine_order(keys)[i as int],
            ));
            i = i + 1;
        }
        assert(engine_order(keys).take(keys.len() as int) =~= engine_order(keys));
        Plan::Select {
            filter: self.condition,
            sort,
            slice: window(self.offset, self.limit),
            projection: self.selection,
        }
    }
}

/// The rows that a slice keeps of the rows that reach it: all of them where
/// there is no window, else those of the window that exist. The rows to skip
/// are counted from the first row.
pub open spec fn kept_rows<R>(rows: Seq<R>, slice: Option<Window>) -> Seq<R>
    recommends
        slice matches Some(window) ==> window.offset >= 0,
{
    match slice {
        None => rows,
        Some(window) => {
            let start = if window.offset < 0 {
                0
            } else if window.offset > rows.len() {
                rows.len() as int
            } else {
                window.offset as int
            };
            let end = if start + window.length > rows.len() {
                rows.len() as int
            } else {
                start + window.length
            };
            rows.subrange(start, end)
        },
    }
}

/// A slice keeps no more rows than its window is long.
pub proof fn lemma_window_bounds_rows<R>(rows: Seq<R>, window: Window)
    ensures
        kept_rows(rows, Some(window)).len() <= window.length,
        kept_rows(rows, Some(window)).len() <= rows.len(),
{
}

/// A query that is not grouped and names rows to skip but no limit keeps at
/// most twenty rows of however many reach the slice.
pub proof fn lemma_offset_alone_keeps_twenty<R>(sql: SqlView, rows: Seq<R>)
    requires
        sql.wf(),
        sql.group_by.len() == 0,
        sql.offset is Some,
        sql.limit is None,
    ensures
        plan_of(sql) matches PlanView::Select { slice, .. } && slice == Some(
            Window { offset: sql.offset->0, length: 20 },
        ) && kept_rows(rows, slice).len() <= 20,
{
}

/// A query that is not grouped and names both a limit and rows to skip keeps
/// the lesser of the limit and of the rows that are left after the skip,
/// where no more rows reach the slice than the engine counts.
pub proof fn lemma_limit_and_offset_keep<R>(sql: SqlView, rows: Seq<R>)
    requires
        sql.wf(),
        sql.group_by.len() == 0,
        sql.offset is Some,
        sql.limit is Some,
        rows.len() <= u32::MAX,
    ensures
        plan_of(sql) matches PlanView::Select { slice, .. } && kept_rows(rows, slice).len() == ({
            let left = if sql.offset->0 >= rows.len() {
                0
            } else {
                rows.len() - sql.offset->0
            };
            if sql.limit->0 <= left {
                sql.limit->0 as int
            } else {
                left
            }
        }),
{
}

/// A query that names neither rows to skip nor a limit is not sliced: every
/// row that reaches the slice is kept.
pub proof fn lemma_no_limits_keep_all<R>(sql: SqlView, rows: Seq<R>)
    requires
        sql.offset is None,
        sql.limit is None,
    ensures
        match plan_of(sql) {
            PlanView::Select { slice, .. } => slice is None && kept_rows(rows, slice) == rows,
            PlanView::Aggregate { .. } => true,
        },
{
}

/// A query is planned as an aggregation if and only if it groups.
pub proof fn lemma_grouping_decides(sql: SqlView)
    ensures
        plan_of(sql) is Aggregate <==> sql.group_by.len() > 0,
        plan_of(sql) is Select <==> sql.group_by.len() == 0,
{
}

} // verus!
