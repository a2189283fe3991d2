//! The three ways in which an operation fails.

use vstd::prelude::*;
use crate::text::{numeral, push_numeral};

verus! {

/// Why an operation against the service failed.
#[derive(Debug, Clone)]
pub enum Error {
    /// The request could not be completed; holds the transport's diagnostic.
    Request(String),
    /// The service answered with a status outside the 2xx range.
    Api {
        /// HTTP status code of the answer.
        status: u16,
        /// Body text of the answer.
        message: String,
    },
    /// The answer could not be decoded; holds the decoder's diagnostic.
    Parse(String),
}

/// The mathematical content of an [`Error`].
pub enum ErrorView {
    Request(Seq<char>),
    Api { status: u16, message: Seq<char> },
    Parse(Seq<char>),
}

impl View for Error {
    type V = ErrorView;

    open spec fn view(&self) -> ErrorView {
        match self {
            Error::Request(diagnostic) => ErrorView::Request(diagnostic@),
            Error::Api { status, message } => ErrorView::Api { status: *status, message: message@ },
            Error::Parse(diagnostic) => ErrorView::Parse(diagnostic@),
        }
    }
}

impl ErrorView {
    /// The one-line description of the failure.
    pub open spec fn description(self) -> Seq<char> {
        match self {
            ErrorView::Request(diagnostic) => "HTTP request failed: "@ + diagnostic,
            ErrorView::Api { status, message } => "API error (HTTP "@ + numeral(status as nat)
                + "): "@ + message,
            ErrorView::Parse(diagnostic) => "Failed to parse response: "@ + diagnostic,
        }
    }
}

impl Error {
    /// The failure of a request that got no answer: the connection could
    /// not be made, or broke before a status came.
    pub fn unanswered(diagnostic: &str) -> (e: Error)
        ensures
            e@ == ErrorView::Request(diagnostic@),
    {
        Error::Request(String::from_str(diagnostic))
    }

    /// Describes the failure in one line.
    pub fn to_string(&self) -> (out: String)
        ensures
            out@ == self@.description(),
    {
        match self {
            Error::Request(diagnostic) => {
                let mut out = String::from_str("HTTP request failed: ");
                out.append(diagnostic.as_str());
                out
            },
            Error::Api { status, message } => {
                let mut out = String::from_str("API error (HTTP ");
                push_numeral(&mut out, *status as u64);
                out.append("): ");
                out.append(message.as_str());
                out
            },
            Error::Parse(diagnostic) => {
                let mut out = String::from_str("Failed to parse response: ");
                out.append(diagnostic.as_str());
                out
            },
        }
    }
}

} // verus!
