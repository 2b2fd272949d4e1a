//! The failures of one call, as one value.

use vstd::prelude::*;
use vstd::string::*;
use crate::shape::{path_text, problem_words, DecodeFailure};

verus! {

/// What the three kinds of failure are called.
#[derive(Debug, Clone, Copy, PartialEq, Eq, Structural)]
pub enum ErrorKind {
    Http,
    Json,
    Url,
}

/// Why a call failed. Exactly one kind holds of a failed call.
#[derive(Debug, Clone)]
pub enum Error {
    /// The exchange over the network failed.
    Http { message: String },
    /// The body did not have the expected shape; the failure names the place
    /// where it first departs from it.
    Json { failure: DecodeFailure },
    /// The address of the endpoint is not an absolute URL.
    Url { message: String },
}

impl Error {
    pub open spec fn kind_of(self) -> ErrorKind {
        match self {
            Error::Http { .. } => ErrorKind::Http,
            Error::Json { .. } => ErrorKind::Json,
            Error::Url { .. } => ErrorKind::Url,
        }
    }

    /// The kind of this failure.
    pub fn kind(&self) -> (k: ErrorKind)
        ensures
            k == self.kind_of(),
    {
        match self {
            Error::Http { .. } => ErrorKind::Http,
            Error::Json { .. } => ErrorKind::Json,
            Error::Url { .. } => ErrorKind::Url,
        }
    }

    /// This failure in words: its kind, then what went wrong, and for a
    /// body of the wrong shape the way to the place in between.
    pub open spec fn described(self) -> Seq<char> {
        match self {
            Error::Http { message } => "HTTP Error: "@ + message@,
            Error::Json { failure } => "JSON Error in "@ + path_text(failure@.path) + ": "@
                + problem_words(failure@.problem),
            Error::Url { message } => "URL Error: "@ + message@,
        }
    }

    /// This failure in words.
    pub fn describe(&self) -> (r: String)
        ensures
            r@ == self.described(),
    {
        match self {
            Error::Http { message } => {
                let mut r: String = "HTTP Error: ".to_owned();
                r.append(message.as_str());
                r
            },
            Error::Json { failure } => {
                let mut r: String = "JSON Error in ".to_owned();
                let path: String = failure.path_text();
                let words: String = failure.problem.words();
                r.append(path.as_str());
                r.append(": ");
                r.append(words.as_str());
                r
            },
            Error::Url { message } => {
                let mut r: String = "URL Error: ".to_owned();
                r.append(message.as_str());
                r
            },
        }
    }
}

} // verus!
