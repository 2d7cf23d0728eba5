//! The ways in which reading a film's metadata fails.

use vstd::prelude::*;
use vstd::string::StringExecFns;

verus! {

/// Why no metadata came out of a request. A failed extraction gives exactly
/// one of these and no partial record.
#[derive(Debug, PartialEq, Eq)]
pub enum FilmError {
    /// A value that should be a number is not the text of one.
    ParseError,
    /// No element of the page matches a selector.
    SelectorError,
    /// The element that was found lacks the attribute that is read from it.
    AttributeError,
    /// The request itself failed; the text says how.
    ReqwestError(String),
    /// The catalogue has no page for the film.
    NotFoundError,
}

/// A `FilmError` with its text as a sequence of characters.
pub enum FilmErrorView {
    ParseError,
    SelectorError,
    AttributeError,
    ReqwestError(Seq<char>),
    NotFoundError,
}

impl View for FilmError {
    type V = FilmErrorView;

    open spec fn view(&self) -> FilmErrorView {
        match self {
            FilmError::ParseError => FilmErrorView::ParseError,
            FilmError::SelectorError => FilmErrorView::SelectorError,
            FilmError::AttributeError => FilmErrorView::AttributeError,
            FilmError::ReqwestError(detail) => FilmErrorView::ReqwestError(detail@),
            FilmError::NotFoundError => FilmErrorView::NotFoundError,
        }
    }
}

impl FilmErrorView {
    /// The one-line description of the error.
    pub open spec fn description(self) -> Seq<char> {
        match self {
            FilmErrorView::ParseError => "Parsing error"@,
            FilmErrorView::SelectorError => "Selector error"@,
            FilmErrorView::AttributeError => "Attribute error"@,
            FilmErrorView::ReqwestError(detail) => "Request error: "@ + detail,
            FilmErrorView::NotFoundError => "Not found error"@,
        }
    }
}

impl FilmError {
    /// The one-line description of the error, as a `String`.
    pub fn description(&self) -> (text: String)
        ensures
            text@ == self@.description(),
    {
        match self {
            FilmError::ParseError => String::from_str("Parsing error"),
            FilmError::SelectorError => String::from_str("Selector error"),
            FilmError::AttributeError => String::from_str("Attribute error"),
            FilmError::ReqwestError(detail) => {
                String::from_str("Request error: ").concat(detail.as_str())
            },
            FilmError::NotFoundError => String::from_str("Not found error"),
        }
    }
}

} // verus!
