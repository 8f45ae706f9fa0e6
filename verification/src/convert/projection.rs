//! The select list: columns, aliases, wildcards and aggregates.

use crate::ast::SqlFunction;
use crate::ast::SqlFunctionArg;
use crate::ast::SqlSelectItem;
use crate::convert::listing::lemma_try_map_prefix_fails;
use crate::convert::listing::try_map;
use crate::error::outcome;
use crate::error::CustomError;
use crate::error::ErrorView;
use crate::expr::expression_view;
use crate::expr::AggregateFunction;
use crate::expr::Expression;
use crate::expr::ExpressionView;
use crate::text::chars_of;
use crate::text::matches_ignoring_ascii_case;
use crate::text::same_ignoring_ascii_case;
use vstd::prelude::*;
use vstd::std_specs::convert::TryFromSpecImpl;

verus! {

/// The aggregate that a function name stands for, whatever the case of its letters.
pub open spec fn aggregate_named(name: Seq<char>) -> Option<AggregateFunction> {
    if same_ignoring_ascii_case(name, seq!['c', 'o', 'u', 'n', 't']) {
        Some(AggregateFunction::Count)
    } else if same_ignoring_ascii_case(name, seq!['m', 'a', 'x']) {
        Some(AggregateFunction::Max)
    } else if same_ignoring_ascii_case(name, seq!['m', 'i', 'n']) {
        Some(AggregateFunction::Min)
    } else if same_ignoring_ascii_case(name, seq!['s', 'u', 'm']) {
        Some(AggregateFunction::Sum)
    } else if same_ignoring_ascii_case(name, seq!['a', 'v', 'g']) {
        Some(AggregateFunction::Avg)
    } else {
        None
    }
}

/// Looks a function name up among the aggregates.
pub fn aggregate_function(name: &str) -> (function: Option<AggregateFunction>)
    ensures
        function == aggregate_named(name@),
{
    let chars = chars_of(name);
    proof {
        reveal_strlit("count");
        reveal_strlit("max");
        reveal_strlit("min");
        reveal_strlit("sum");
        reveal_strlit("avg");
        assert("count"@ =~= seq!['c', 'o', 'u', 'n', 't']);
        assert("max"@ =~= seq!['m', 'a', 'x']);
        assert("min"@ =~= seq!['m', 'i', 'n']);
        assert("sum"@ =~= seq!['s', 'u', 'm']);
        assert("avg"@ =~= seq!['a', 'v', 'g']);
    }
    if matches_ignoring_ascii_case(chars.as_slice(), chars_of("count").as_slice()) {
        Some(AggregateFunction::Count)
    } else if matches_ignoring_ascii_case(chars.as_slice(), chars_of("max").as_slice()) {
        Some(AggregateFunction::Max)
    } else if matches_ignoring_ascii_case(chars.as_slice(), chars_of("min").as_slice()) {
        Some(AggregateFunction::Min)
    } else if matches_ignoring_ascii_case(chars.as_slice(), chars_of("sum").as_slice()) {
        Some(AggregateFunction::Sum)
    } else if matches_ignoring_ascii_case(chars.as_slice(), chars_of("avg").as_slice()) {
        Some(AggregateFunction::Avg)
    } else {
        None
    }
}

/// The aggregate that a function call stands for.
///
/// The name must be that of an aggregate, else the error carries the name. The
/// call must have one argument, a column or, for a count only, `*`, and
/// nothing besides; else the error carries the text of the call.
pub open spec fn aggregate_of(function: SqlFunction) -> Result<ExpressionView, ErrorView> {
    match aggregate_named(function.name@) {
        None => Err(CustomError::SqlExprFuncItem(function.name@)),
        Some(f) => if function.args@.len() != 1 || function.modifiers@.len() != 0 {
            Err(CustomError::SqlExprFuncArgsItem(function.text@))
        } else {
            match function.args@[0] {
                SqlFunctionArg::Identifier(column) => Ok(
                    Expression::Aggregate {
                        function: f,
                        expr: Box::new(Expression::Column(column@)),
                    },
                ),
                SqlFunctionArg::Wildcard => if f is Count {
                    Ok(Expression::Aggregate { function: f, expr: Box::new(Expression::Wildcard) })
                } else {
                    Err(CustomError::SqlExprFuncArgsItem(function.text@))
                },
                SqlFunctionArg::Other(_) => Err(CustomError::SqlExprFuncArgsItem(function.text@)),
            }
        },
    }
}

/// Translates a function call into an aggregate.
pub fn aggregate(function: &SqlFunction) -> (r: Result<Expression, CustomError>)
    ensures
        outcome(r) == aggregate_of(*function),
{
    let f = match aggregate_function(function.name.as_str()) {
        Some(f) => f,
        None => {
            return Err(CustomError::SqlExprFuncItem(function.name.clone()));
        },
    };
    if function.args.len() != 1 || function.modifiers.len() != 0 {
        return Err(CustomError::SqlExprFuncArgsItem(function.text.clone()));
    }
    match &function.args[0] {
        SqlFunctionArg::Identifier(column) => {
            let of = Expression::Column(column.clone());
            assert(expression_view(of) == Expression::Column(column@));
            Ok(Expression::Aggregate { function: f, expr: Box::new(of) })
        },
        SqlFunctionArg::Wildcard => match f {
            AggregateFunction::Count => {
                assert(expression_view(Expression::Wildcard) == ExpressionView::Wildcard);
                Ok(Expression::Aggregate { function: f, expr: Box::new(Expression::Wildcard) })
            },
            _ => Err(CustomError::SqlExprFuncArgsItem(function.text.clone())),
        },
        SqlFunctionArg::Other(_) => Err(CustomError::SqlExprFuncArgsItem(function.text.clone())),
    }
}

/// A select item on its way to an [`Expression`].
pub struct InterimSelectItem<'a>(pub &'a SqlSelectItem);

/// What a select item projects.
///
/// A column projects itself, under its alias where it has one, and `*` every
/// column. An aggregate projects the column that holds its value: the one
/// named by its alias or, without an alias, by the text of the call.
pub open spec fn projection_of(item: SqlSelectItem) -> Result<ExpressionView, ErrorView> {
    match item {
        SqlSelectItem::Identifier(name) => Ok(Expression::Column(name@)),
        SqlSelectItem::AliasedIdentifier { name, alias } => Ok(
            Expression::Alias { expr: Box::new(Expression::Column(name@)), name: alias@ },
        ),
        SqlSelectItem::Function(function) => match aggregate_of(function) {
            Err(e) => Err(e),
            Ok(_) => Ok(Expression::Column(function.text@)),
        },
        SqlSelectItem::AliasedFunction { function, alias } => match aggregate_of(function) {
            Err(e) => Err(e),
            Ok(_) => Ok(Expression::Column(alias@)),
        },
        SqlSelectItem::Wildcard => Ok(Expression::Wildcard),
        SqlSelectItem::Other(text) => Err(CustomError::SqlSelectItemError(text@)),
    }
}

/// What a select item adds to the aggregation list: an aggregate under the
/// name of the column that the item projects, nothing for any other item.
pub open spec fn aggregation_of(item: SqlSelectItem) -> Option<ExpressionView> {
    match item {
        SqlSelectItem::Function(function) => match aggregate_of(function) {
            Ok(a) => Some(Expression::Alias { expr: Box::new(a), name: function.text@ }),
            Err(_) => None,
        },
        SqlSelectItem::AliasedFunction { function, alias } => match aggregate_of(function) {
            Ok(a) => Some(Expression::Alias { expr: Box::new(a), name: alias@ }),
            Err(_) => None,
        },
        _ => None,
    }
}

/// Translates a select item into what it projects and what it aggregates.
pub fn select_item(item: &SqlSelectItem) -> (r: Result<
    (Expression, Option<Expression>),
    CustomError,
>)
    ensures
        match r {
            Ok((projection, aggregation)) => {
                &&& projection_of(*item) == Ok::<ExpressionView, ErrorView>(projection.deep_view())
                &&& aggregation.deep_view() == aggregation_of(*item)
            },
            Err(e) => projection_of(*item) == Err::<ExpressionView, ErrorView>(e.deep_view()),
        },
{
    match item {
        SqlSelectItem::Identifier(name) => Ok((Expression::Column(name.clone()), None)),
        SqlSelectItem::AliasedIdentifier { name, alias } => {
            let column = Expression::Column(name.clone());
            assert(expression_view(column) == Expression::Column(name@));
            Ok((Expression::Alias { expr: Box::new(column), name: alias.clone() }, None))
        },
        SqlSelectItem::Function(function) => match aggregate(function) {
            Err(e) => Err(e),
            Ok(a) => Ok(
                (
                    Expression::Column(function.text.clone()),
                    Some(Expression::Alias { expr: Box::new(a), name: function.text.clone() }),
                ),
            ),
        },
        SqlSelectItem::AliasedFunction { function, alias } => match aggregate(function) {
            Err(e) => Err(e),
            Ok(a) => Ok(
                (
                    Expression::Column(alias.clone()),
                    Some(Expression::Alias { expr: Box::new(a), name: alias.clone() }),
                ),
            ),
        },
        SqlSelectItem::Wildcard => Ok((Expression::Wildcard, None)),
        SqlSelectItem::Other(text) => Err(CustomError::SqlSelectItemError(text.clone())),
    }
}

impl<'a> TryFrom<InterimSelectItem<'a>> for Expression {
    type Error = CustomError;

    fn try_from(p: InterimSelectItem<'a>) -> (r: Result<Expression, CustomError>)
        ensures
            outcome(r) == projection_of(*p.0),
    {
        match select_item(p.0) {
            Ok((projection, _)) => Ok(projection),
            Err(e) => Err(e),
        }
    }
}

impl<'a> TryFromSpecImpl<InterimSelectItem<'a>> for Expression {
    open spec fn obeys_try_from_spec() -> bool {
        false
    }

    open spec fn try_from_spec(p: InterimSelectItem<'a>) -> Result<Expression, CustomError> {
        arbitrary()
    }
}

/// What a select list projects: what each item projects, in order, or the
/// error of the first item that projects nothing.
pub open spec fn projections_of(items: Seq<SqlSelectItem>) -> Result<
    Seq<ExpressionView>,
    ErrorView,
> {
    try_map(items, |item: SqlSelectItem| projection_of(item))
}

/// The aggregation list of a select list: what each item adds, in order.
pub open spec fn aggregations_of(items: Seq<SqlSelectItem>) -> Seq<ExpressionView>
    decreases items.len(),
{
    if items.len() == 0 {
        Seq::empty()
    } else {
        match aggregation_of(items.last()) {
            Some(a) => aggregations_of(items.drop_last()).push(a),
            None => aggregations_of(items.drop_last()),
        }
    }
}

/// Translates a select list into the projection and the aggregation list.
pub fn select_list(items: &Vec<SqlSelectItem>) -> (r: Result<
    (Vec<Expression>, Vec<Expression>),
    CustomError,
>)
    ensures
        match r {
            Ok((selection, aggregation)) => {
                &&& projections_of(items@) == Ok::<Seq<ExpressionView>, ErrorView>(
                    selection.deep_view(),
                )
                &&& aggregation.deep_view() == aggregations_of(items@)
            },
            Err(e) => projections_of(items@) == Err::<Seq<ExpressionView>, ErrorView>(
                e.deep_view(),
            ),
        },
{
    let mut selection: Vec<Expression> = Vec::with_capacity(8);
    let mut aggregation: Vec<Expression> = Vec::new();
    let ghost f = |item: SqlSelectItem| projection_of(item);
    let mut i: usize = 0;
    assert(items@.take(0) =~= Seq::empty());
    assert(selection.deep_view() =~= Seq::empty());
    assert(aggregation.deep_view() =~= Seq::empty());
    while i < items.len()
        invariant
            i <= items.len(),
            f == |item: SqlSelectItem| projection_of(item),
            try_map(items@.take(i as int), f) == Ok::<Seq<ExpressionView>, ErrorView>(
                selection.deep_view(),
            ),
            aggregation.deep_view() == aggregations_of(items@.take(i as int)),
        decreases items.len() - i,
    {
        let ghost before = selection.deep_view();
        let ghost aggregated = aggregation.deep_view();
        assert(items@.take(i + 1).drop_last() =~= items@.take(i as int));
        assert(items@.take(i + 1).last() == items@[i as int]);
        match select_item(&items[i]) {
            Err(e) => {
                proof {
                    lemma_try_map_prefix_fails(items@, f, i + 1);
                }
                return Err(e);
            },
            Ok((projection, added)) => {
                selection.push(projection);
                assert(selection.deep_view() =~= before.push(projection.deep_view()));
                match added {
                    Some(a) => {
                        aggregation.push(a);
                        assert(aggregation.deep_view() =~= aggregated.push(a.deep_view()));
                    },
                    None => {},
                }
            },
        }
        i = i + 1;
    }
    assert(items@.take(items.len() as int) =~= items@);
    Ok((selection, aggregation))
}

} // verus!
