//! Identifier rules that let a bare URL or path stand as a table name.

use crate::text::is_digit;
use vstd::prelude::*;

verus! {

/// Whether `ch` is an ASCII letter.
pub open spec fn is_ascii_letter(ch: char) -> bool {
    ('a' <= ch && ch <= 'z') || ('A' <= ch && ch <= 'Z')
}

/// The characters that may open an identifier: ASCII letters and the underscore.
pub open spec fn identifier_start(ch: char) -> bool {
    is_ascii_letter(ch) || ch == '_'
}

/// The characters that may continue an identifier: ASCII letters, digits, and
/// the punctuation of a URL or path: `: / ? & = - _ .`.
pub open spec fn identifier_part(ch: char) -> bool {
    is_ascii_letter(ch) || is_digit(ch) || ch == ':' || ch == '/' || ch == '?' || ch == '&'
        || ch == '=' || ch == '-' || ch == '_' || ch == '.'
}

/// The dialect under which a scheme-qualified URL or a path is one unquoted identifier.
#[derive(Debug, Default)]
pub struct TyrDialect;

impl sqlparser::dialect::Dialect for TyrDialect {
    fn is_identifier_start(&self, ch: char) -> (accepted: bool)
        ensures
            accepted == identifier_start(ch),
    {
        ('a' <= ch && ch <= 'z') || ('A' <= ch && ch <= 'Z') || ch == '_'
    }

    fn is_identifier_part(&self, ch: char) -> (accepted: bool)
        ensures
            accepted == identifier_part(ch),
    {
        ('a' <= ch && ch <= 'z') || ('A' <= ch && ch <= 'Z') || ('0' <= ch && ch <= '9')
            || ch == ':' || ch == '/' || ch == '?' || ch == '&' || ch == '=' || ch == '-'
            || ch == '_' || ch == '.'
    }
}

/// A query that the library answers, over a public table of figures by country.
pub const EXAMPLE_SQL: &'static str =
    "SELECT total_deaths, new_deaths as new_deaths_1  FROM https://raw.githubusercontent.com/ai-aide/query-server/refs/heads/master/resource/owid-covid-latest.csv where new_deaths >= 5 and total_deaths>29.0  ORDER BY total_deaths, new_deaths DESC LIMIT 10 OFFSET 0";

/// An example of a query.
pub fn example_sql() -> (sql: String)
    ensures
        sql@ == EXAMPLE_SQL@,
{
    EXAMPLE_SQL.to_owned()
}

} // verus!
