//! Why a request or a configuration is refused.
use vstd::prelude::*;

verus! {

/// Why a request or a configuration is refused.
#[derive(Debug, PartialEq, Eq)]
pub enum Error {
    /// The configuration does not hold; the text says why.
    Config(String),
    /// The request does not follow the protocol; the text says why.
    Protocol(String),
    /// No run under this request identifier takes part any more.
    RunNotFound(String),
}

/// The value of an [`Error`].
pub enum ErrorView {
    Config(Seq<char>),
    Protocol(Seq<char>),
    RunNotFound(Seq<char>),
}

impl View for Error {
    type V = ErrorView;

    open spec fn view(&self) -> ErrorView {
        match self {
            Error::Config(text) => ErrorView::Config(text@),
            Error::Protocol(text) => ErrorView::Protocol(text@),
            Error::RunNotFound(text) => ErrorView::RunNotFound(text@),
        }
    }
}

impl ErrorView {
    /// The text of the error.
    pub open spec fn text(self) -> Seq<char> {
        match self {
            ErrorView::Config(text) => text,
            ErrorView::Protocol(text) => text,
            ErrorView::RunNotFound(text) => text,
        }
    }
}

impl Error {
    /// The text of the error.
    pub fn message(&self) -> (r: &str)
        ensures
            r@ == self@.text(),
    {
        match self {
            Error::Config(text) => text.as_str(),
            Error::Protocol(text) => text.as_str(),
            Error::RunNotFound(text) => text.as_str(),
        }
    }
}

/// The text of an error is the one that it was made with.
pub proof fn law_errors_say_what_they_were_made_with(text: Seq<char>)
    ensures
        ErrorView::Config(text).text() == text,
        ErrorView::Protocol(text).text() == text,
        ErrorView::RunNotFound(text).text() == text,
{
}

} // verus!
