//! The rows to keep and to skip.

use crate::ast::SqlExpr;
use crate::ast::SqlOffset;
use crate::ast::SqlValue;
use crate::text::chars_of;
use crate::text::parse_numeral;
use crate::text::read_numeral;
use vstd::prelude::*;
use vstd::std_specs::convert::FromSpecImpl;

verus! {

/// An `OFFSET` clause on its way to a number of rows.
pub struct InterimOffset<'a>(pub &'a SqlOffset);

/// The expression of a `LIMIT` clause on its way to a number of rows.
pub struct InterimLimit<'a>(pub &'a SqlExpr);

/// The count that an expression gives: the value of a number written as a
/// numeral of at most `max`. Any other expression gives none.
pub open spec fn count_of(expr: SqlExpr, max: nat) -> Option<nat> {
    match expr {
        SqlExpr::Value(SqlValue::Number(numeral)) => read_numeral(numeral@, max),
        _ => None,
    }
}

/// Reads a count of at most `max` off an expression.
fn count(expr: &SqlExpr, max: u64) -> (value: Option<u64>)
    ensures
        match value {
            Some(v) => count_of(*expr, max as nat) == Some(v as nat),
            None => count_of(*expr, max as nat) is None,
        },
{
    match expr {
        SqlExpr::Value(SqlValue::Number(numeral)) => {
            let chars = chars_of(numeral.as_str());
            parse_numeral(chars.as_slice(), max)
        },
        _ => None,
    }
}

/// The rows to skip that an `OFFSET` clause asks for, if it says so in a
/// numeral that fits.
pub open spec fn offset_of(offset: SqlOffset) -> Option<i64> {
    match count_of(offset.value, i64::MAX as nat) {
        Some(n) => Some(n as i64),
        None => None,
    }
}

/// The rows to keep that a `LIMIT` expression asks for, if it says so in a
/// numeral that fits.
pub open spec fn limit_of(limit: SqlExpr) -> Option<usize> {
    match count_of(limit, usize::MAX as nat) {
        Some(n) => Some(n as usize),
        None => None,
    }
}

impl<'a> From<InterimOffset<'a>> for Option<i64> {
    fn from(offset: InterimOffset<'a>) -> (rows: Option<i64>)
        ensures
            rows == offset_of(*offset.0),
    {
        match count(&offset.0.value, 0x7fff_ffff_ffff_ffff) {
            Some(n) => Some(n as i64),
            None => None,
        }
    }
}

impl<'a> FromSpecImpl<InterimOffset<'a>> for Option<i64> {
    open spec fn obeys_from_spec() -> bool {
        false
    }

    open spec fn from_spec(offset: InterimOffset<'a>) -> Option<i64> {
        arbitrary()
    }
}

impl<'a> From<InterimLimit<'a>> for Option<usize> {
    fn from(l: InterimLimit<'a>) -> (rows: Option<usize>)
        ensures
            rows == limit_of(*l.0),
    {
        match count(l.0, usize::MAX as u64) {
            Some(n) => Some(n as usize),
            None => None,
        }
    }
}

impl<'a> FromSpecImpl<InterimLimit<'a>> for Option<usize> {
    open spec fn obeys_from_spec() -> bool {
        false
    }

    open spec fn from_spec(l: InterimLimit<'a>) -> Option<usize> {
        arbitrary()
    }
}

} // verus!
