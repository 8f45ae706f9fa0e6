//! What a table offers: its shape, its columns, and its text as CSV or JSON.

use crate::engine::columns;
use crate::engine::columns_of;
use crate::engine::csv_read;
use crate::engine::csv_written;
use crate::engine::height_of;
use crate::engine::json_read;
use crate::engine::json_written;
use crate::engine::types_of;
use crate::engine::fields;
use crate::engine::rows;
use crate::engine::spelled_type;
use crate::engine::text_of;
use crate::engine::type_spelling;
use crate::engine::write_csv;
use crate::engine::write_json;
use crate::error::outcome;
use crate::error::CustomError;
use crate::error::ErrorView;
use vstd::prelude::*;
use vstd::utf8::decode_utf8;
use vstd::utf8::valid_utf8;

verus! {

/// A table: a frame of the engine, columns of equal height under distinct
/// names.
#[derive(Debug)]
pub struct DataSet(pub polars::prelude::DataFrame);

impl std::ops::Deref for DataSet {
    type Target = polars::prelude::DataFrame;

    fn deref(&self) -> (frame: &polars::prelude::DataFrame)
        ensures
            *frame == self.0,
    {
        &self.0
    }
}

impl std::ops::DerefMut for DataSet {
    fn deref_mut(&mut self) -> (frame: &mut polars::prelude::DataFrame)
        ensures
            *frame == old(self).0,
            final(self).0 == *final(frame),
    {
        &mut self.0
    }
}

/// The number of rows of a table.
pub open spec fn table_height(table: DataSet) -> nat {
    height_of(table.0)
}

/// The names of the columns of a table, in the order of the columns.
pub open spec fn table_columns(table: DataSet) -> Seq<Seq<char>> {
    columns_of(table.0)
}

/// The types of the columns of a table, each as the engine spells it, in the
/// order of the columns.
pub open spec fn table_types(table: DataSet) -> Seq<Seq<char>> {
    types_of(table.0)
}

/// The table that CSV text is read as; none where the text cannot be read.
pub open spec fn csv_table(text: Seq<char>) -> Option<DataSet> {
    match csv_read(text) {
        Some(frame) => Some(DataSet(frame)),
        None => None,
    }
}

/// The table that JSON text is read as; none where the text cannot be read.
pub open spec fn json_table(text: Seq<char>) -> Option<DataSet> {
    match json_read(text) {
        Some(frame) => Some(DataSet(frame)),
        None => None,
    }
}

/// The bytes that are written of a table as CSV; none where the table cannot
/// be written.
pub open spec fn csv_of(table: DataSet) -> Option<Seq<u8>> {
    csv_written(table.0)
}

/// The bytes that are written of a table as JSON; none where the table cannot
/// be written.
pub open spec fn json_of(table: DataSet) -> Option<Seq<u8>> {
    json_written(table.0)
}

/// The type of a column.
#[derive(PartialEq, Eq, Debug)]
pub struct ColumnType(pub polars::prelude::DataType);

impl std::ops::Deref for ColumnType {
    type Target = polars::prelude::DataType;

    fn deref(&self) -> (dtype: &polars::prelude::DataType)
        ensures
            *dtype == self.0,
    {
        &self.0
    }
}

impl std::ops::DerefMut for ColumnType {
    fn deref_mut(&mut self) -> (dtype: &mut polars::prelude::DataType)
        ensures
            *dtype == old(self).0,
            final(self).0 == *final(dtype),
    {
        &mut self.0
    }
}

/// What a serialized table is: the text that the written bytes spell. That
/// the table could not be written, or that the bytes spell no text, is a
/// failure of the engine.
pub open spec fn serialized_as(written: Result<Seq<u8>, Seq<char>>) -> Result<
    Seq<char>,
    ErrorView,
> {
    match written {
        Ok(bytes) => if valid_utf8(bytes) {
            Ok(decode_utf8(bytes))
        } else {
            Err(
                CustomError::PolarsError {
                    error: seq![
                        'i',
                        'n',
                        'v',
                        'a',
                        'l',
                        'i',
                        'd',
                        ' ',
                        'u',
                        't',
                        'f',
                        '-',
                        '8',
                    ],
                },
            )
        },
        Err(message) => Err(CustomError::PolarsError { error: message }),
    }
}

/// Turns what a writer of the engine gave into text.
pub fn serialized(written: Result<Vec<u8>, String>) -> (r: Result<String, CustomError>)
    ensures
        outcome(r) == serialized_as(
            match written {
                Ok(bytes) => Ok(bytes@),
                Err(message) => Err(message@),
            },
        ),
{
    match written {
        Ok(bytes) => match text_of(bytes) {
            Some(text) => Ok(text),
            None => {
                proof {
                    reveal_strlit("invalid utf-8");
                    assert("invalid utf-8"@ =~= seq![
                        'i',
                        'n',
                        'v',
                        'a',
                        'l',
                        'i',
                        'd',
                        ' ',
                        'u',
                        't',
                        'f',
                        '-',
                        '8',
                    ]);
                }
                Err(CustomError::PolarsError { error: "invalid utf-8".to_owned() })
            },
        },
        Err(message) => Err(CustomError::PolarsError { error: message }),
    }
}

/// Whether `r` is what writing a table gives where the engine wrote
/// `written`: the text that the bytes spell, or an error of the engine where
/// they spell none; and an error of the engine where nothing was written.
pub open spec fn is_written(written: Option<Seq<u8>>, r: Result<String, CustomError>) -> bool {
    match written {
        Some(bytes) => outcome(r) == serialized_as(Ok(bytes)),
        None => r matches Err(e) && e is PolarsError,
    }
}

/// Whether `list` is the schema of `table`: one pair for each column, in the
/// order of the columns, with the name of the column and its type.
pub open spec fn is_schema(list: Seq<(String, ColumnType)>, table: DataSet) -> bool {
    &&& list.len() == table_columns(table).len()
    &&& list.len() == table_types(table).len()
    &&& forall|i: int| 0 <= i < list.len() ==> (#[trigger] list[i]).0@ == table_columns(table)[i]
    &&& forall|i: int|
        0 <= i < list.len() ==> type_spelling((#[trigger] list[i]).1.0) == table_types(table)[i]
}

impl DataSet {
    /// The number of rows.
    pub fn height(&self) -> (height: usize)
        ensures
            height == table_height(*self),
    {
        rows(&self.0)
    }

    /// The number of columns.
    pub fn width(&self) -> (width: usize)
        ensures
            width == table_columns(*self).len(),
    {
        columns(&self.0)
    }

    /// The name and the type of each column, in the order of the columns.
    pub fn columns(&self) -> (list: Vec<(String, ColumnType)>)
        ensures
            is_schema(list@, *self),
    {
        fields(&self.0)
    }

    /// The table as CSV text: the text that the bytes spell which the engine
    /// writes of the table. A failure to write it is an error of the engine.
    /// The table keeps its rows and its columns.
    pub fn to_csv(&mut self) -> (r: Result<String, CustomError>)
        ensures
            is_written(csv_of(*old(self)), r),
            table_height(*final(self)) == table_height(*old(self)),
            table_columns(*final(self)) == table_columns(*old(self)),
            table_types(*final(self)) == table_types(*old(self)),
    {
        serialized(write_csv(&mut self.0))
    }

    /// The table as JSON text: the text that the bytes spell which the engine
    /// writes of the table. A failure to write it is an error of the engine.
    /// The table keeps its rows and its columns.
    pub fn to_json(&mut self) -> (r: Result<String, CustomError>)
        ensures
            is_written(json_of(*old(self)), r),
            table_height(*final(self)) == table_height(*old(self)),
            table_columns(*final(self)) == table_columns(*old(self)),
            table_types(*final(self)) == table_types(*old(self)),
    {
        serialized(write_json(&mut self.0))
    }
}

impl ColumnType {
    /// The name of the type, as the engine spells it.
    pub fn name(&self) -> (text: String)
        ensures
            text@ == type_spelling(self.0),
    {
        spelled_type(&self.0)
    }
}

} // verus!
