//! The one source of a query.

use crate::ast::SqlName;
use crate::ast::SqlTableFactor;
use crate::ast::SqlTableWithJoins;
use crate::error::CustomError;
use crate::error::ErrorView;
use vstd::prelude::*;
use vstd::string::StringExecFns;
use vstd::std_specs::convert::TryFromSpecImpl;

verus! {

/// A `FROM` clause on its way to the source that it names.
pub struct InterimSource<'a>(pub &'a [SqlTableWithJoins]);

/// The text of a list of table references: the text of each, with a comma
/// and a space between two.
pub open spec fn tables_text(tables: Seq<SqlTableWithJoins>) -> Seq<char>
    decreases tables.len(),
{
    if tables.len() == 0 {
        Seq::empty()
    } else if tables.len() == 1 {
        tables[0].text@
    } else {
        tables_text(tables.drop_last()) + seq![',', ' '] + tables.last().text@
    }
}

/// The source that a `FROM` clause names.
///
/// The clause must hold one table reference, without joins, that is a table
/// whose name starts with an identifier: the value of that identifier is the
/// source. Any other clause is an error: one without a reference carries the
/// word `empty`, one with several carries the text of them all, one with a
/// join the text of the first join, and any other the text of what stands in
/// the place of the name.
pub open spec fn source_of(tables: Seq<SqlTableWithJoins>) -> Result<Seq<char>, ErrorView> {
    if tables.len() == 0 {
        Err(CustomError::SqlTableError(seq!['e', 'm', 'p', 't', 'y']))
    } else if tables.len() > 1 {
        Err(CustomError::SqlTableError(tables_text(tables)))
    } else if tables[0].joins@.len() > 0 {
        Err(CustomError::SqlTableError(tables[0].joins@[0]@))
    } else {
        match tables[0].relation {
            SqlTableFactor::Table { name } => if name@.len() == 0 {
                Err(CustomError::SqlTableError(Seq::empty()))
            } else {
                match name@[0] {
                    SqlName::Identifier(source) => Ok(source@),
                    SqlName::Other(text) => Err(CustomError::SqlTableError(text@)),
                }
            },
            SqlTableFactor::Other(text) => Err(CustomError::SqlTableError(text@)),
        }
    }
}

/// Writes out a list of table references.
fn listed(tables: &[SqlTableWithJoins]) -> (text: String)
    requires
        tables@.len() >= 1,
    ensures
        text@ == tables_text(tables@),
{
    let mut text = tables[0].text.clone();
    let mut i: usize = 1;
    proof {
        reveal_strlit(", ");
        assert(", "@ =~= seq![',', ' ']);
        assert(tables@.take(1).len() == 1);
        assert(tables@.take(1)[0] == tables@[0]);
    }
    while i < tables.len()
        invariant
            1 <= i <= tables.len(),
            ", "@ == seq![',', ' '],
            text@ == tables_text(tables@.take(i as int)),
        decreases tables.len() - i,
    {
        assert(tables@.take(i + 1).drop_last() =~= tables@.take(i as int));
        assert(tables@.take(i + 1).last() == tables@[i as int]);
        text.append(", ");
        text.append(tables[i].text.as_str());
        i = i + 1;
    }
    assert(tables@.take(tables.len() as int) =~= tables@);
    text
}

impl<'a> TryFrom<InterimSource<'a>> for &'a str {
    type Error = CustomError;

    fn try_from(source: InterimSource<'a>) -> (r: Result<&'a str, CustomError>)
        ensures
            match r {
                Ok(name) => source_of(source.0@) == Ok::<Seq<char>, ErrorView>(name@),
                Err(e) => source_of(source.0@) == Err::<Seq<char>, ErrorView>(e.deep_view()),
            },
    {
        if source.0.len() == 0 {
            proof {
                reveal_strlit("empty");
                assert("empty"@ =~= seq!['e', 'm', 'p', 't', 'y']);
            }
            return Err(CustomError::SqlTableError("empty".to_owned()));
        }
        if source.0.len() > 1 {
            return Err(CustomError::SqlTableError(listed(source.0)));
        }
        let table = &source.0[0];
        if table.joins.len() > 0 {
            return Err(CustomError::SqlTableError(table.joins[0].clone()));
        }
        match &table.relation {
            SqlTableFactor::Table { name } => {
                if name.len() == 0 {
                    return Err(CustomError::SqlTableError(String::new()));
                }
                match &name[0] {
                    SqlName::Identifier(ident) => Ok(ident.as_str()),
                    SqlName::Other(text) => Err(CustomError::SqlTableError(text.clone())),
                }
            },
            SqlTableFactor::Other(text) => Err(CustomError::SqlTableError(text.clone())),
        }
    }
}

impl<'a> TryFromSpecImpl<InterimSource<'a>> for &'a str {
    open spec fn obeys_try_from_spec() -> bool {
        false
    }

    open spec fn try_from_spec(source: InterimSource<'a>) -> Result<&'a str, CustomError> {
        arbitrary()
    }
}

/// A `FROM` clause names a source only if it holds exactly one table
/// reference and that reference has no joins; any other clause is a table error.
pub proof fn lemma_source_wants_one_table(tables: Seq<SqlTableWithJoins>)
    ensures
        source_of(tables) is Ok ==> tables.len() == 1 && tables[0].joins@.len() == 0,
        tables.len() > 1 ==> source_of(tables) == Err::<Seq<char>, ErrorView>(
            CustomError::SqlTableError(tables_text(tables)),
        ),
        source_of(tables) matches Err(e) ==> e is SqlTableError,
{
}

} // verus!
