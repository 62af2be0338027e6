//! The errors the library reports.

use vstd::prelude::*;
use vstd::string::*;

verus! {

/// An error, as the user reads it.
#[derive(Clone, Debug, PartialEq, Eq)]
pub enum Error {
    /// A failure the tool itself detects, with its message.
    Message(String),
    /// A failure of the operating system, with its description.
    Io(String),
    /// Text that could not be read as expected (JSON, UTF-8), with the
    /// description of the problem.
    Parse(String),
}

/// The mathematical value of an [`Error`].
pub enum ErrorView {
    Message(Seq<char>),
    Io(Seq<char>),
    Parse(Seq<char>),
}

impl View for Error {
    type V = ErrorView;

    open spec fn view(&self) -> ErrorView {
        match self {
            Error::Message(m) => ErrorView::Message(m@),
            Error::Io(m) => ErrorView::Io(m@),
            Error::Parse(m) => ErrorView::Parse(m@),
        }
    }
}

/// `r` is an error that carries message `m`.
pub open spec fn fails_with<T>(r: Result<T, Error>, m: Seq<char>) -> bool {
    r matches Err(e) && e@ == ErrorView::Message(m)
}

impl Error {
    /// An error with message `msg`.
    pub fn message(msg: &str) -> (e: Error)
        ensures
            e@ == ErrorView::Message(msg@),
    {
        Error::Message(String::from_str(msg))
    }

    /// The text shown for this error.
    pub fn text(&self) -> (r: &str)
        ensures
            r@ == match self@ {
                ErrorView::Message(m) => m,
                ErrorView::Io(m) => m,
                ErrorView::Parse(m) => m,
            },
    {
        match self {
            Error::Message(m) => m.as_str(),
            Error::Io(m) => m.as_str(),
            Error::Parse(m) => m.as_str(),
        }
    }
}

} // verus!
