//! The ways in which an operation of this crate fails.

use vstd::prelude::*;
use vstd::string::*;

verus! {

/// A failure as plain mathematical values.
pub enum ErrorView {
    ParseError,
    IoError(Seq<char>),
    TooDeeplyNested,
    BadOption,
}

/// Why an extraction or a store failed.
#[derive(Debug)]
pub enum ExtractError {
    /// The input is not a message.
    ParseError,
    /// Creating the directory or writing a file failed; the text describes the
    /// underlying cause.
    IoError(String),
    /// Messages are nested more deeply than the caller allowed.
    TooDeeplyNested,
    /// An option of a keyword list has a value of the wrong shape.
    BadOption,
}

impl View for ExtractError {
    type V = ErrorView;

    open spec fn view(&self) -> ErrorView {
        match self {
            ExtractError::ParseError => ErrorView::ParseError,
            ExtractError::IoError(cause) => ErrorView::IoError(cause@),
            ExtractError::TooDeeplyNested => ErrorView::TooDeeplyNested,
            ExtractError::BadOption => ErrorView::BadOption,
        }
    }
}

/// The text that reports a failure.
pub open spec fn message_text(error: ErrorView) -> Seq<char> {
    match error {
        ErrorView::ParseError => "error"@,
        ErrorView::IoError(cause) => "Failed to write to disk: "@ + cause,
        ErrorView::TooDeeplyNested => "too deeply nested"@,
        ErrorView::BadOption => "bad option"@,
    }
}

impl ExtractError {
    /// A human-readable report of the failure.
    pub fn message(&self) -> (text: String)
        ensures
            text@ == message_text(self@),
    {
        match self {
            ExtractError::ParseError => "error".to_owned(),
            ExtractError::IoError(cause) => {
                let mut text = "Failed to write to disk: ".to_owned();
                text.append(cause.as_str());
                text
            },
            ExtractError::TooDeeplyNested => "too deeply nested".to_owned(),
            ExtractError::BadOption => "bad option".to_owned(),
        }
    }
}

} // verus!
