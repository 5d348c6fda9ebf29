//! The error type shared by the URI functions.

use vstd::prelude::*;
use vstd::string::StringExecFns;

verus! {

/// The mathematical value of a [`QmpoError`]: which kind of failure it is, and for a
/// wrong scheme the scheme that was found.
pub enum SpecError {
    InvalidScheme(Seq<char>),
    InvalidUri,
    EmptyPath,
    InvalidEncoding,
}

/// Errors that can occur while a `directory://` URI is turned into a path.
#[derive(Debug)]
pub enum QmpoError {
    /// The URI has a scheme other than `directory`; the scheme found is kept.
    InvalidScheme(String),
    /// The text is not a URI, or does not begin with `directory://`; the reason is kept.
    InvalidUri(String),
    /// Nothing follows `directory://`.
    EmptyPath,
    /// The percent-decoded path is not valid UTF-8.
    InvalidEncoding,
}

impl View for QmpoError {
    type V = SpecError;

    open spec fn view(&self) -> SpecError {
        match self {
            QmpoError::InvalidScheme(scheme) => SpecError::InvalidScheme(scheme@),
            QmpoError::InvalidUri(_) => SpecError::InvalidUri,
            QmpoError::EmptyPath => SpecError::EmptyPath,
            QmpoError::InvalidEncoding => SpecError::InvalidEncoding,
        }
    }
}

impl QmpoError {
    /// The text of the diagnostic that [`QmpoError::message`] builds.
    pub open spec fn message_text(&self) -> Seq<char> {
        match self {
            QmpoError::InvalidScheme(scheme) => "invalid URI scheme: expected 'directory', got '"@
                + scheme@ + "'"@,
            QmpoError::InvalidUri(reason) => "invalid URI format: "@ + reason@,
            QmpoError::EmptyPath => "empty path in URI"@,
            QmpoError::InvalidEncoding => "percent-decoded path is not valid UTF-8"@,
        }
    }

    /// A human-readable description of the error.
    pub fn message(&self) -> (text: String)
        ensures
            text@ == self.message_text(),
    {
        match self {
            QmpoError::InvalidScheme(scheme) => {
                let mut text = String::from_str("invalid URI scheme: expected 'directory', got '");
                text.append(scheme.as_str());
                text.append("'");
                text
            },
            QmpoError::InvalidUri(reason) => {
                let mut text = String::from_str("invalid URI format: ");
                text.append(reason.as_str());
                text
            },
            QmpoError::EmptyPath => String::from_str("empty path in URI"),
            QmpoError::InvalidEncoding => String::from_str(
                "percent-decoded path is not valid UTF-8",
            ),
        }
    }
}

} // verus!
