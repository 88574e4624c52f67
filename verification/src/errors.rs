//! The errors that parsing and validation report.

use vstd::prelude::*;
use vstd::string::*;
use crate::text::join;

verus! {

/// An error met while reading or validating a document.
///
/// The errors of the YAML and JSON libraries and of I/O are held by their
/// rendered message; validation errors by the path of the offending field and
/// a message.
#[derive(Debug, PartialEq, Eq, Clone)]
pub enum ParserError {
    Yaml(String),
    Json(String),
    Validation { path: String, message: String },
    Io(String),
}

/// What a [`ParserError`] holds, as sequences of characters.
pub enum ErrorView {
    Yaml(Seq<char>),
    Json(Seq<char>),
    Validation { path: Seq<char>, message: Seq<char> },
    Io(Seq<char>),
}

impl View for ParserError {
    type V = ErrorView;

    open spec fn view(&self) -> ErrorView {
        match self {
            ParserError::Yaml(m) => ErrorView::Yaml(m@),
            ParserError::Json(m) => ErrorView::Json(m@),
            ParserError::Validation { path, message } => ErrorView::Validation {
                path: path@,
                message: message@,
            },
            ParserError::Io(m) => ErrorView::Io(m@),
        }
    }
}

/// A validation error at `path` with `message`.
pub open spec fn verr(path: Seq<char>, message: Seq<char>) -> ErrorView {
    ErrorView::Validation { path, message }
}

/// The one error `e` where `cond` holds, else no error.
pub open spec fn error_if(cond: bool, e: ErrorView) -> Seq<ErrorView> {
    if cond { seq![e] } else { Seq::empty() }
}

/// The text of an error, as the command line prints it.
pub open spec fn error_text(e: ErrorView) -> Seq<char> {
    match e {
        ErrorView::Yaml(m) => "Failed to deserialise yaml: "@ + m,
        ErrorView::Json(m) => "Failed to serialise json: "@ + m,
        ErrorView::Validation { path, message } => "Validation failed at "@ + path
            + " with message: "@ + message,
        ErrorView::Io(m) => "IO error: "@ + m,
    }
}

impl ParserError {
    /// A validation error at `path` with `message`.
    pub fn validation(path: String, message: &str) -> (res: ParserError)
        ensures
            res@ == verr(path@, message@),
    {
        ParserError::Validation { path, message: String::from_str(message) }
    }

    /// The text of the error, as the command line prints it.
    pub fn text(&self) -> (res: String)
        ensures
            res@ == error_text(self@),
    {
        match self {
            ParserError::Yaml(m) => join("Failed to deserialise yaml: ", m.as_str()),
            ParserError::Json(m) => join("Failed to serialise json: ", m.as_str()),
            ParserError::Validation { path, message } => {
                let mut r = join("Validation failed at ", path.as_str());
                r.append(" with message: ");
                r.append(message.as_str());
                r
            },
            ParserError::Io(m) => join("IO error: ", m.as_str()),
        }
    }
}

/// The first error that the rules of an indicator (SLI) find: the path of the
/// offending field and a message.
#[derive(Debug, PartialEq, Eq, Clone)]
pub struct ValidationError {
    pub path: String,
    pub message: String,
}

impl ValidationError {
    /// An error at `path` with `message`.
    pub fn new(path: String, message: &str) -> (res: ValidationError)
        ensures
            res.path@ == path@,
            res.message@ == message@,
    {
        ValidationError { path, message: String::from_str(message) }
    }

    /// The same error as a [`ParserError`].
    pub fn into_parser_error(self) -> (res: ParserError)
        ensures
            res@ == verr(self.path@, self.message@),
    {
        ParserError::Validation { path: self.path, message: self.message }
    }
}

/// The view of an indicator error as a parser error.
pub open spec fn verr_of(e: ValidationError) -> ErrorView {
    verr(e.path@, e.message@)
}

} // verus!
