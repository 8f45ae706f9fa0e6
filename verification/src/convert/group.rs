//! The columns to group by.

use crate::ast::SqlGroupBy;
use crate::ast::SqlName;
use crate::convert::listing::lemma_try_map_prefix_fails;
use crate::convert::listing::try_map;
use crate::error::outcome;
use crate::error::CustomError;
use crate::error::ErrorView;
use vstd::prelude::*;

verus! {

/// The column that a `GROUP BY` entry names; an entry that is no identifier
/// is an error that carries its text.
pub open spec fn group_key_of(key: SqlName) -> Result<Seq<char>, ErrorView> {
    match key {
        SqlName::Identifier(name) => Ok(name@),
        SqlName::Other(text) => Err(CustomError::SqlExpressionError(text@)),
    }
}

/// The columns to group by: those that the entries name, in order, or the
/// error of the first entry that names none. `GROUP BY ALL` is an error.
pub open spec fn group_by_of(group_by: SqlGroupBy) -> Result<Seq<Seq<char>>, ErrorView> {
    match group_by {
        SqlGroupBy::All => Err(CustomError::SqlExpressionError(seq!['A', 'L', 'L'])),
        SqlGroupBy::Expressions(keys) => try_map(keys@, |key: SqlName| group_key_of(key)),
    }
}

/// Translates a `GROUP BY` clause.
pub fn group_keys(group_by: &SqlGroupBy) -> (r: Result<Vec<String>, CustomError>)
    ensures
        outcome(r) == group_by_of(*group_by),
{
    let keys = match group_by {
        SqlGroupBy::All => {
            proof {
                reveal_strlit("ALL");
                assert("ALL"@ =~= seq!['A', 'L', 'L']);
            }
            return Err(CustomError::SqlExpressionError("ALL".to_owned()));
        },
        SqlGroupBy::Expressions(keys) => keys,
    };
    let mut names: Vec<String> = Vec::new();
    let ghost f = |key: SqlName| group_key_of(key);
    let mut i: usize = 0;
    assert(keys@.take(0) =~= Seq::empty());
    assert(names.deep_view() =~= Seq::empty());
    while i < keys.len()
        invariant
            i <= keys.len(),
            f == |key: SqlName| group_key_of(key),
            group_by_of(*group_by) == try_map(keys@, f),
            try_map(keys@.take(i as int), f) == Ok::<Seq<Seq<char>>, ErrorView>(names.deep_view()),
        decreases keys.len() - i,
    {
        let ghost before = names.deep_view();
        assert(keys@.take(i + 1).drop_last() =~= keys@.take(i as int));
        assert(keys@.take(i + 1).last() == keys@[i as int]);
        match &keys[i] {
            SqlName::Identifier(name) => {
                names.push(name.clone());
                assert(names.deep_view() =~= before.push(name@));
            },
            SqlName::Other(text) => {
                proof {
                    assert(f(keys@[i as int]) == group_key_of(keys@[i as int]));
                    assert(try_map(keys@.take(i + 1), f) == Err::<Seq<Seq<char>>, ErrorView>(
                        CustomError::SqlExpressionError(text@),
                    ));
                    lemma_try_map_prefix_fails(keys@, f, i + 1);
                }
                return Err(CustomError::SqlExpressionError(text.clone()));
            },
        }
        i = i + 1;
    }
    assert(keys@.take(keys.len() as int) =~= keys@);
    Ok(names)
}

} // verus!
