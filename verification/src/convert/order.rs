//! Sort keys, and the direction that an entry without one inherits.

use crate::ast::SqlName;
use crate::ast::SqlOrderBy;
use crate::ast::SqlOrderByExpr;
use crate::error::CustomError;
use vstd::prelude::*;
use vstd::std_specs::convert::TryFromSpecImpl;

verus! {

/// The direction of a sort key.
#[derive(Debug, Clone, Copy, PartialEq, Eq)]
pub enum OrderType {
    Asc,
    Desc,
}

impl DeepView for OrderType {
    type V = OrderType;

    open spec fn deep_view(&self) -> OrderType {
        *self
    }
}

/// An `ORDER BY` clause on its way to a list of sort keys.
pub struct InterimOrderBy<'a>(pub &'a SqlOrderBy);

/// The direction that `ASC` or `DESC` names.
pub open spec fn direction_of(asc: bool) -> OrderType {
    if asc {
        OrderType::Asc
    } else {
        OrderType::Desc
    }
}

/// The direction in force at `from`: that of the nearest entry at or after
/// `from` that names a column and has a direction of its own, and descending
/// where there is none.
pub open spec fn direction_from(entries: Seq<SqlOrderByExpr>, from: int) -> OrderType
    decreases entries.len() - from,
{
    if from < 0 || from >= entries.len() {
        OrderType::Desc
    } else {
        match (entries[from].expr, entries[from].asc) {
            (SqlName::Identifier(_), Some(asc)) => direction_of(asc),
            _ => direction_from(entries, from + 1),
        }
    }
}

/// The sort keys of the entries from `from` on: each entry that names a
/// column, with the direction in force at its place. Other entries give no key.
pub open spec fn sort_keys_from(entries: Seq<SqlOrderByExpr>, from: int) -> Seq<
    (Seq<char>, OrderType),
>
    decreases entries.len() - from,
{
    if from < 0 || from >= entries.len() {
        Seq::empty()
    } else {
        match entries[from].expr {
            SqlName::Identifier(name) => seq![(name@, direction_from(entries, from))]
                + sort_keys_from(entries, from + 1),
            SqlName::Other(_) => sort_keys_from(entries, from + 1),
        }
    }
}

/// The sort keys of an `ORDER BY` clause; `ORDER BY ALL` has none.
pub open spec fn order_of(order_by: SqlOrderBy) -> Seq<(Seq<char>, OrderType)> {
    match order_by {
        SqlOrderBy::Expressions(entries) => sort_keys_from(entries@, 0),
        SqlOrderBy::All => Seq::empty(),
    }
}

impl<'a> TryFrom<InterimOrderBy<'a>> for Vec<(String, OrderType)> {
    type Error = CustomError;

    /// Walks the entries from the right, carrying the last direction met, and
    /// turns the keys round at the end.
    fn try_from(o: InterimOrderBy<'a>) -> (r: Result<Vec<(String, OrderType)>, CustomError>)
        ensures
            r is Ok,
            r->Ok_0.deep_view() == order_of(*o.0),
    {
        let entries = match o.0 {
            SqlOrderBy::Expressions(entries) => entries,
            SqlOrderBy::All => {
                let none: Vec<(String, OrderType)> = Vec::new();
                assert(none.deep_view() =~= Seq::empty());
                return Ok(none);
            },
        };
        let mut backwards: Vec<(String, OrderType)> = Vec::new();
        let mut carried = OrderType::Desc;
        let mut i: usize = entries.len();
        assert(backwards.deep_view() =~= sort_keys_from(entries@, i as int).reverse());
        while i > 0
            invariant
                i <= entries.len(),
                carried == direction_from(entries@, i as int),
                backwards.deep_view() == sort_keys_from(entries@, i as int).reverse(),
            decreases i,
        {
            i = i - 1;
            let entry = &entries[i];
            match &entry.expr {
                SqlName::Identifier(name) => {
                    let direction = match entry.asc {
                        Some(asc) => if asc {
                            OrderType::Asc
                        } else {
                            OrderType::Desc
                        },
                        None => carried,
                    };
                    let ghost before = backwards.deep_view();
                    let ghost rest = sort_keys_from(entries@, i + 1);
                    backwards.push((name.clone(), direction));
                    carried = direction;
                    assert(backwards.deep_view() =~= before.push((name@, direction)));
                    assert((seq![(name@, direction)] + rest).reverse() =~= rest.reverse().push(
                        (name@, direction),
                    ));
                },
                SqlName::Other(_) => {},
            }
        }
        let ghost all = backwards.deep_view();
        let mut keys: Vec<(String, OrderType)> = Vec::new();
        assert(keys.deep_view() =~= all.skip(backwards.len() as int).reverse());
        while backwards.len() > 0
            invariant
                backwards.len() <= all.len(),
                backwards.deep_view() == all.take(backwards.len() as int),
                keys.deep_view() == all.skip(backwards.len() as int).reverse(),
            decreases backwards.len(),
        {
            let ghost turned = keys.deep_view();
            let ghost n = backwards.len() as int;
            let ghost left = backwards.deep_view();
            let key = backwards.pop().unwrap();
            assert(key.deep_view() == left[n - 1]);
            assert(backwards.deep_view() =~= all.take(n - 1));
            keys.push(key);
            assert(keys.deep_view() =~= turned.push(key.deep_view()));
            assert(all.skip(n - 1).reverse() =~= all.skip(n).reverse().push(all[n - 1]));
        }
        assert(all.skip(0) =~= all);
        assert(all.reverse() =~= sort_keys_from(entries@, 0));
        Ok(keys)
    }
}

impl<'a> TryFromSpecImpl<InterimOrderBy<'a>> for Vec<(String, OrderType)> {
    open spec fn obeys_try_from_spec() -> bool {
        false
    }

    open spec fn try_from_spec(o: InterimOrderBy<'a>) -> Result<
        Vec<(String, OrderType)>,
        CustomError,
    > {
        arbitrary()
    }
}

/// An entry that names a column and has a direction of its own sets the
/// direction of every entry to its left up to the next such entry.
pub proof fn lemma_direction_inherited(entries: Seq<SqlOrderByExpr>, i: int, j: int)
    requires
        0 <= i <= j < entries.len(),
        entries[j].expr is Identifier,
        entries[j].asc is Some,
        forall|k: int|
            i <= k < j ==> !((#[trigger] entries[k]).expr is Identifier && entries[k].asc is Some),
    ensures
        direction_from(entries, i) == direction_of(entries[j].asc->0),
    decreases j - i,
{
    if i < j {
        assert(!(entries[i].expr is Identifier && entries[i].asc is Some));
        lemma_direction_inherited(entries, i + 1, j);
    }
}

/// Where no entry from `i` on names a column with a direction of its own, the
/// direction is descending.
pub proof fn lemma_direction_default(entries: Seq<SqlOrderByExpr>, i: int)
    requires
        0 <= i,
        forall|k: int|
            i <= k < entries.len() ==> !((#[trigger] entries[k]).expr is Identifier
                && entries[k].asc is Some),
    ensures
        direction_from(entries, i) == OrderType::Desc,
    decreases entries.len() - i,
{
    if i < entries.len() {
        assert(!(entries[i].expr is Identifier && entries[i].asc is Some));
        lemma_direction_default(entries, i + 1);
    }
}

/// Where every entry names a column, there is one sort key for each entry, in
/// the same order, with the entry's column and the direction in force at its place.
pub proof fn lemma_sort_keys(entries: Seq<SqlOrderByExpr>, from: int)
    requires
        0 <= from <= entries.len(),
        forall|k: int| 0 <= k < entries.len() ==> (#[trigger] entries[k]).expr is Identifier,
    ensures
        sort_keys_from(entries, from).len() == entries.len() - from,
        forall|k: int|
            from <= k < entries.len() ==> #[trigger] sort_keys_from(entries, from)[k - from] == (
                entries[k].expr->Identifier_0@,
                direction_from(entries, k),
            ),
    decreases entries.len() - from,
{
    if from < entries.len() {
        lemma_sort_keys(entries, from + 1);
        assert(entries[from].expr is Identifier);
        let rest = sort_keys_from(entries, from + 1);
        assert forall|k: int| from <= k < entries.len() implies #[trigger] sort_keys_from(
            entries,
            from,
        )[k - from] == (entries[k].expr->Identifier_0@, direction_from(entries, k)) by {
            if k > from {
                assert(sort_keys_from(entries, from)[k - from] == rest[k - (from + 1)]);
            }
        }
    }
}

} // verus!
