//! The ways in which reading a layout fails.
use vstd::prelude::*;

verus! {

/// What is wrong with a document that could not be read as a layout.
#[derive(Debug, Clone, PartialEq, Eq)]
pub enum JsonError {
    /// The JSON decoder could not read the text; its message.
    Syntax(String),
    /// A value of the wrong kind: the document or a row is not an array, a row element is
    /// neither a string nor an object, or a field holds a value of the wrong type.
    InvalidType,
    /// A colour literal that does not parse.
    InvalidColor(String),
    /// A whole number outside the range that its field accepts.
    OutOfRange { value: i64, max: usize },
}

/// An error raised while reading a layout.
#[derive(Debug, Clone, PartialEq, Eq)]
pub enum Error {
    /// A legend alignment outside `0..=7`, with the value given.
    Alignment(usize),
    /// A malformed document.
    Json(JsonError),
}

/// What an [`Error`] holds, with its texts as characters.
pub enum ErrorView {
    Alignment(usize),
    Syntax(Seq<char>),
    InvalidType,
    InvalidColor(Seq<char>),
    OutOfRange(i64, usize),
}

impl View for Error {
    type V = ErrorView;

    open spec fn view(&self) -> ErrorView {
        match self {
            Error::Alignment(a) => ErrorView::Alignment(*a),
            Error::Json(JsonError::Syntax(m)) => ErrorView::Syntax(m@),
            Error::Json(JsonError::InvalidType) => ErrorView::InvalidType,
            Error::Json(JsonError::InvalidColor(s)) => ErrorView::InvalidColor(s@),
            Error::Json(JsonError::OutOfRange { value, max }) => ErrorView::OutOfRange(*value, *max),
        }
    }
}

/// `r` is the outcome that `s` describes, with `f` giving the view of a success.
pub open spec fn outcome_is<T, U>(r: Result<T, Error>, s: Result<U, ErrorView>, f: spec_fn(T) -> U) -> bool {
    match r {
        Ok(v) => s is Ok && f(v) == s->Ok_0,
        Err(e) => s is Err && e@ == s->Err_0,
    }
}

} // verus!
