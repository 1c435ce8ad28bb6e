//! What can go wrong between the server and the archive.

use vstd::prelude::*;

verus! {

/// A failure of the storage layer.
#[derive(Debug)]
pub enum Error {
    /// The backend could not be reached, or failed while it was read.
    Io(String),
    /// The backend was reached and what it said, or what it was asked for, makes no sense.
    Protocol(String),
}

/// An [`Error`] as a value: its kind and its text.
pub enum ErrorView {
    Io(Seq<char>),
    Protocol(Seq<char>),
}

impl View for Error {
    type V = ErrorView;

    open spec fn view(&self) -> ErrorView {
        match self {
            Error::Io(text) => ErrorView::Io(text@),
            Error::Protocol(text) => ErrorView::Protocol(text@),
        }
    }
}

impl ErrorView {
    /// The text that an operator reads.
    pub open spec fn text(self) -> Seq<char> {
        match self {
            ErrorView::Io(text) => text,
            ErrorView::Protocol(text) => text,
        }
    }
}

impl Error {
    /// The text that an operator reads.
    pub fn message(&self) -> (r: &str)
        ensures
            r@ == self@.text(),
    {
        match self {
            Error::Io(text) => text.as_str(),
            Error::Protocol(text) => text.as_str(),
        }
    }
}

} // verus!
