//! Where the data of a source is to be had.

use crate::error::outcome;
use crate::error::CustomError;
use crate::error::ErrorView;
use crate::text::chars_of;
use crate::text::same_text;
use vstd::prelude::*;
use vstd::string::StrSliceExecFns;

verus! {

/// Where to fetch from.
///
/// `S` is the type of the text: `String` in executable code, `Seq<char>` in
/// specifications.
#[derive(Debug, PartialEq, Eq)]
pub enum Resource<S = String> {
    /// A URL to get over the network: the source as it is.
    Url(S),
    /// A path to read from the file system: the source without its scheme.
    File(S),
}

impl DeepView for Resource<String> {
    type V = Resource<Seq<char>>;

    open spec fn deep_view(&self) -> Resource<Seq<char>> {
        match self {
            Resource::Url(url) => Resource::Url(url@),
            Resource::File(path) => Resource::File(path@),
        }
    }
}

/// The scheme of a source: its first four characters, or all of it where it
/// has fewer.
pub open spec fn scheme_of(source: Seq<char>) -> Seq<char> {
    if source.len() < 4 {
        source
    } else {
        source.subrange(0, 4)
    }
}

/// A source without its first seven characters, the length of `file://`;
/// nothing is left of a source that has fewer.
pub open spec fn path_of(source: Seq<char>) -> Seq<char> {
    if source.len() < 7 {
        Seq::empty()
    } else {
        source.subrange(7, source.len() as int)
    }
}

/// Where the data of a source is to be had: by its scheme, over the network
/// for `http` and from the file system for `file`. Any other scheme is an
/// error that carries the scheme.
pub open spec fn resource_of(source: Seq<char>) -> Result<Resource<Seq<char>>, ErrorView> {
    if scheme_of(source) == seq!['h', 't', 't', 'p'] {
        Ok(Resource::Url(source))
    } else if scheme_of(source) == seq!['f', 'i', 'l', 'e'] {
        Ok(Resource::File(path_of(source)))
    } else {
        Err(CustomError::FetchResourceError(scheme_of(source)))
    }
}

/// Tells where the data of a source is to be had.
pub fn locate(source: &str) -> (r: Result<Resource, CustomError>)
    ensures
        outcome(r) == resource_of(source@),
{
    let chars = chars_of(source);
    let n = chars.len();
    let scheme = if n < 4 {
        source
    } else {
        source.substring_char(0, 4)
    };
    let scheme_chars = chars_of(scheme);
    proof {
        reveal_strlit("http");
        reveal_strlit("file");
        assert("http"@ =~= seq!['h', 't', 't', 'p']);
        assert("file"@ =~= seq!['f', 'i', 'l', 'e']);
    }
    if same_text(scheme_chars.as_slice(), chars_of("http").as_slice()) {
        Ok(Resource::Url(source.to_owned()))
    } else if same_text(scheme_chars.as_slice(), chars_of("file").as_slice()) {
        let path = if n < 7 {
            String::new()
        } else {
            source.substring_char(7, n).to_owned()
        };
        Ok(Resource::File(path))
    } else {
        Err(CustomError::FetchResourceError(scheme.to_owned()))
    }
}

/// The error of a fetch that failed: it carries the source and the message
/// of the failure.
pub fn fetch_failure(source: &str, message: String) -> (e: CustomError)
    ensures
        e.deep_view() == (CustomError::<Seq<char>>::FetchError { url: source@, error: message@ }),
{
    CustomError::FetchError { url: source.to_owned(), error: message }
}

/// Only the schemes `http` and `file` are fetched from.
pub proof fn lemma_only_two_schemes(source: Seq<char>)
    ensures
        resource_of(source) is Ok <==> (scheme_of(source) == seq!['h', 't', 't', 'p'] || scheme_of(
            source,
        ) == seq!['f', 'i', 'l', 'e']),
        resource_of(source) matches Err(e) ==> e == CustomError::<Seq<char>>::FetchResourceError(
            scheme_of(source),
        ),
{
}

} // verus!
