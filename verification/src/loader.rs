//! Reading fetched text into a table, by its declared format.

use crate::dataset::csv_table;
use crate::dataset::json_table;
use crate::dataset::DataSet;
use crate::engine::read_csv;
use crate::engine::read_json;
use crate::error::CustomError;
use crate::error::ErrorView;
use crate::text::chars_of;
use crate::text::matches_ignoring_ascii_case;
use crate::text::same_ignoring_ascii_case;
use vstd::prelude::*;
use vstd::std_specs::convert::TryFromSpecImpl;

verus! {

/// The formats in which a table can be read and written.
#[derive(Debug, Clone, Copy, PartialEq, Eq)]
pub enum FormatType {
    Csv,
    Json,
}

impl DeepView for FormatType {
    type V = FormatType;

    open spec fn deep_view(&self) -> FormatType {
        *self
    }
}

/// The format that a tag names, whatever the case of its letters: `csv` or
/// `json`, and no other.
pub open spec fn format_named(tag: Seq<char>) -> Option<FormatType> {
    if same_ignoring_ascii_case(tag, seq!['c', 's', 'v']) {
        Some(FormatType::Csv)
    } else if same_ignoring_ascii_case(tag, seq!['j', 's', 'o', 'n']) {
        Some(FormatType::Json)
    } else {
        None
    }
}

impl TryFrom<&str> for FormatType {
    type Error = CustomError;

    /// Reads a format tag. A tag that names no format is an error that
    /// carries the tag; no format stands in for it.
    fn try_from(value: &str) -> (r: Result<FormatType, CustomError>)
        ensures
            match r {
                Ok(format) => format_named(value@) == Some(format),
                Err(e) => format_named(value@) is None && e.deep_view()
                    == CustomError::<Seq<char>>::LoadTypeError(value@),
            },
    {
        let chars = chars_of(value);
        proof {
            reveal_strlit("csv");
            reveal_strlit("json");
            assert("csv"@ =~= seq!['c', 's', 'v']);
            assert("json"@ =~= seq!['j', 's', 'o', 'n']);
        }
        if matches_ignoring_ascii_case(chars.as_slice(), chars_of("csv").as_slice()) {
            Ok(FormatType::Csv)
        } else if matches_ignoring_ascii_case(chars.as_slice(), chars_of("json").as_slice()) {
            Ok(FormatType::Json)
        } else {
            Err(CustomError::LoadTypeError(value.to_owned()))
        }
    }
}

impl TryFromSpecImpl<&str> for FormatType {
    open spec fn obeys_try_from_spec() -> bool {
        false
    }

    open spec fn try_from_spec(value: &str) -> Result<FormatType, CustomError> {
        arbitrary()
    }
}

/// The format that a caller asks for: CSV where it names none, the format
/// that its tag names where it names one, and an error that carries the tag
/// where the tag names no format.
pub open spec fn format_asked(tag: Option<Seq<char>>) -> Result<FormatType, ErrorView> {
    match tag {
        None => Ok(FormatType::Csv),
        Some(tag) => match format_named(tag) {
            Some(format) => Ok(format),
            None => Err(CustomError::LoadTypeError(tag)),
        },
    }
}

/// The tag of an optional text.
pub open spec fn tag_of(text: Option<&str>) -> Option<Seq<char>> {
    match text {
        Some(text) => Some(text@),
        None => None,
    }
}

/// Reads the two formats of a call: that of the source, then that of the
/// answer. Both must be read before anything else is done; the error is that
/// of the first tag that names no format.
pub fn formats(format: Option<&str>, output: Option<&str>) -> (r: Result<
    (FormatType, FormatType),
    CustomError,
>)
    ensures
        match format_asked(tag_of(format)) {
            Err(e) => r matches Err(error) && error.deep_view() == e,
            Ok(source) => match format_asked(tag_of(output)) {
                Err(e) => r matches Err(error) && error.deep_view() == e,
                Ok(answer) => r == Ok::<(FormatType, FormatType), CustomError>((source, answer)),
            },
        },
{
    let source = match format {
        None => FormatType::Csv,
        Some(tag) => match FormatType::try_from(tag) {
            Ok(format) => format,
            Err(e) => {
                return Err(e);
            },
        },
    };
    let answer = match output {
        None => FormatType::Csv,
        Some(tag) => match FormatType::try_from(tag) {
            Ok(format) => format,
            Err(e) => {
                return Err(e);
            },
        },
    };
    Ok((source, answer))
}

/// No tag but `csv` and `json`, in whatever case, names a format: any other
/// is an error, and no format stands in for it.
pub proof fn lemma_unknown_tag_is_refused(tag: Seq<char>)
    requires
        !same_ignoring_ascii_case(tag, seq!['c', 's', 'v']),
        !same_ignoring_ascii_case(tag, seq!['j', 's', 'o', 'n']),
    ensures
        format_asked(Some(tag)) == Err::<FormatType, ErrorView>(CustomError::LoadTypeError(tag)),
{
}

/// What reads a table from text.
pub trait Load {
    type Error;

    fn load(self) -> Result<DataSet, Self::Error>;
}

/// CSV text on its way to a table.
#[derive(Default, Debug)]
pub struct CsvLoader(pub String);

/// JSON text on its way to a table.
#[derive(Default, Debug)]
pub struct JsonLoader(pub String);

/// Text of a known format on its way to a table.
#[derive(Debug)]
pub enum Loader {
    Csv(CsvLoader),
    Json(JsonLoader),
}

/// Whether an error is the one that a failed load gives: a fetch error
/// without a URL.
pub open spec fn is_load_failure(e: CustomError) -> bool {
    e matches CustomError::FetchError { url, .. } && url@.len() == 0
}

/// The error of a failed load, from the message of the engine.
pub fn load_failure(message: String) -> (e: CustomError)
    ensures
        e.deep_view() == (CustomError::<Seq<char>>::FetchError {
            url: Seq::empty(),
            error: message@,
        }),
        is_load_failure(e),
{
    CustomError::FetchError { url: String::new(), error: message }
}

/// The table that text of a format is read as; none where the text cannot
/// be read.
pub open spec fn table_read(format_type: FormatType, text: Seq<char>) -> Option<DataSet> {
    match format_type {
        FormatType::Csv => csv_table(text),
        FormatType::Json => json_table(text),
    }
}

/// Whether `r` is what a load gives where reading gave `read`: the table that
/// was read, or a fetch error without a URL where none was.
pub open spec fn is_loaded(read: Option<DataSet>, r: Result<DataSet, CustomError>) -> bool {
    match read {
        Some(table) => r == Ok::<DataSet, CustomError>(table),
        None => r matches Err(e) && is_load_failure(e),
    }
}

/// What was read, as a load gives it: the table, or a fetch error without a
/// URL that carries the message of the failure.
pub fn loaded(read: Result<DataSet, String>) -> (r: Result<DataSet, CustomError>)
    ensures
        match read {
            Ok(table) => r == Ok::<DataSet, CustomError>(table),
            Err(message) => r matches Err(e) && is_load_failure(e) && e.deep_view() == (
                CustomError::<Seq<char>>::FetchError { url: Seq::empty(), error: message@ }),
        },
{
    match read {
        Ok(table) => Ok(table),
        Err(message) => Err(load_failure(message)),
    }
}

impl Load for CsvLoader {
    type Error = CustomError;

    fn load(self) -> (r: Result<DataSet, CustomError>)
        ensures
            is_loaded(csv_table(self.0@), r),
    {
        loaded(
            match read_csv(self.0) {
                Ok(frame) => Ok(DataSet(frame)),
                Err(message) => Err(message),
            },
        )
    }
}

impl Load for JsonLoader {
    type Error = CustomError;

    fn load(self) -> (r: Result<DataSet, CustomError>)
        ensures
            is_loaded(json_table(self.0@), r),
    {
        loaded(
            match read_json(self.0) {
                Ok(frame) => Ok(DataSet(frame)),
                Err(message) => Err(message),
            },
        )
    }
}

impl Loader {
    /// Reads the text as a table. A failure to read it is a fetch error
    /// without a URL that carries the message of the engine.
    pub fn load(self) -> (r: Result<DataSet, CustomError>)
        ensures
            is_loaded(
                match self {
                    Loader::Csv(csv) => csv_table(csv.0@),
                    Loader::Json(json) => json_table(json.0@),
                },
                r,
            ),
    {
        match self {
            Loader::Csv(csv) => csv.load(),
            Loader::Json(json) => json.load(),
        }
    }
}

/// Pairs fetched text with the reader of its declared format.
pub fn detect_content(format_type: FormatType, data: String) -> (loader: Loader)
    ensures
        match format_type {
            FormatType::Csv => loader matches Loader::Csv(csv) && csv.0@ == data@,
            FormatType::Json => loader matches Loader::Json(json) && json.0@ == data@,
        },
{
    match format_type {
        FormatType::Csv => Loader::Csv(CsvLoader(data)),
        FormatType::Json => Loader::Json(JsonLoader(data)),
    }
}

} // verus!
