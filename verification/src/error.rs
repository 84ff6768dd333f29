//! Why an authorization failed.

use vstd::prelude::*;
use vstd::string::StringExecFns;

verus! {

/// Why an authorization failed. Every failure ends the request.
#[derive(Debug, PartialEq, Eq)]
pub enum AuthorizationError {
    /// The address of the caller's surface could not be read when it had to
    /// be recorded.
    NoInitialUrl,
    /// An address did not parse; the text is the parser's message.
    InvalidUrl(String),
    /// The host could not open, navigate or close a surface; the text is its
    /// reason.
    Platform(String),
}

/// An [`AuthorizationError`] with its texts as sequences of characters.
pub enum ErrorView {
    NoInitialUrl,
    InvalidUrl(Seq<char>),
    Platform(Seq<char>),
}

impl View for AuthorizationError {
    type V = ErrorView;

    open spec fn view(&self) -> ErrorView {
        match self {
            AuthorizationError::NoInitialUrl => ErrorView::NoInitialUrl,
            AuthorizationError::InvalidUrl(why) => ErrorView::InvalidUrl(why@),
            AuthorizationError::Platform(why) => ErrorView::Platform(why@),
        }
    }
}

impl ErrorView {
    /// The one line that a caller is shown for this failure.
    pub open spec fn message(self) -> Seq<char> {
        match self {
            ErrorView::NoInitialUrl => "Missing initial url"@,
            ErrorView::InvalidUrl(why) => "Invalid url: "@ + why,
            ErrorView::Platform(why) => "Tauri error: "@ + why,
        }
    }
}

impl AuthorizationError {
    /// The one line that a caller is shown for this failure. It is all that
    /// crosses the boundary to the caller: the kind is not sent beside it.
    pub fn message(&self) -> (line: String)
        ensures
            line@ == self@.message(),
    {
        match self {
            AuthorizationError::NoInitialUrl => String::from_str("Missing initial url"),
            AuthorizationError::InvalidUrl(why) => String::from_str("Invalid url: ").concat(
                why.as_str(),
            ),
            AuthorizationError::Platform(why) => String::from_str("Tauri error: ").concat(
                why.as_str(),
            ),
        }
    }
}

} // verus!
