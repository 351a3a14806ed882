//! The ways a sign-in attempt can fail.

use vstd::prelude::*;
use vstd::string::StringExecFns;

verus! {

/// Why a sign-in attempt stopped. Every failure is final: nothing is retried.
#[derive(Debug, PartialEq, Eq)]
pub enum Error {
    /// The environment has no value for the variable `name`; `cause` is what
    /// the environment reported when asked for it.
    MissingVariable { name: String, cause: String },
    /// The requested profile is not the one the environment exports.
    ProfileMismatch,
    /// The federation endpoint could not be asked, or did not answer with a
    /// success status.
    ExchangeFailed { cause: String },
    /// The federation endpoint answered, but its answer holds no sign-in token.
    MalformedResponse { cause: String },
    /// The console URL could not be put together.
    UrlBuildError { cause: String },
    /// The browser could not be started.
    LaunchFailed { cause: String },
}

/// An [`Error`] with its texts as sequences of characters.
pub enum ErrorView {
    MissingVariable { name: Seq<char>, cause: Seq<char> },
    ProfileMismatch,
    ExchangeFailed { cause: Seq<char> },
    MalformedResponse { cause: Seq<char> },
    UrlBuildError { cause: Seq<char> },
    LaunchFailed { cause: Seq<char> },
}

impl View for Error {
    type V = ErrorView;

    open spec fn view(&self) -> ErrorView {
        match *self {
            Error::MissingVariable { name, cause } => ErrorView::MissingVariable {
                name: name@,
                cause: cause@,
            },
            Error::ProfileMismatch => ErrorView::ProfileMismatch,
            Error::ExchangeFailed { cause } => ErrorView::ExchangeFailed { cause: cause@ },
            Error::MalformedResponse { cause } => ErrorView::MalformedResponse { cause: cause@ },
            Error::UrlBuildError { cause } => ErrorView::UrlBuildError { cause: cause@ },
            Error::LaunchFailed { cause } => ErrorView::LaunchFailed { cause: cause@ },
        }
    }
}

/// The outcome of a stage, viewed: its value or its error.
pub open spec fn outcome<T: View>(result: Result<T, Error>) -> Result<T::V, ErrorView> {
    match result {
        Ok(value) => Ok(value@),
        Err(error) => Err(error@),
    }
}

impl ErrorView {
    /// The sentence that names the stage which failed.
    pub open spec fn message(self) -> Seq<char> {
        match self {
            ErrorView::MissingVariable { name, .. } => "Missing "@ + name + " variable"@,
            ErrorView::ProfileMismatch =>
                "Request profile name different than the exported profile name"@,
            ErrorView::ExchangeFailed { .. } => "Request failed"@,
            ErrorView::MalformedResponse { .. } => "Failed to deserialize the response"@,
            ErrorView::UrlBuildError { .. } => "Failed to build the URL"@,
            ErrorView::LaunchFailed { .. } => "Failed to open the browser"@,
        }
    }

    /// The underlying cause, where one was reported.
    pub open spec fn source(self) -> Option<Seq<char>> {
        match self {
            ErrorView::MissingVariable { cause, .. } => Some(cause),
            ErrorView::ProfileMismatch => None,
            ErrorView::ExchangeFailed { cause } => Some(cause),
            ErrorView::MalformedResponse { cause } => Some(cause),
            ErrorView::UrlBuildError { cause } => Some(cause),
            ErrorView::LaunchFailed { cause } => Some(cause),
        }
    }
}

impl Error {
    /// Describes which stage failed, in one sentence.
    pub fn message(&self) -> (text: String)
        ensures
            text@ == self@.message(),
    {
        match self {
            Error::MissingVariable { name, .. } => {
                let mut text = String::from_str("Missing ");
                text.append(name.as_str());
                text.append(" variable");
                text
            },
            Error::ProfileMismatch => String::from_str(
                "Request profile name different than the exported profile name",
            ),
            Error::ExchangeFailed { .. } => String::from_str("Request failed"),
            Error::MalformedResponse { .. } => String::from_str(
                "Failed to deserialize the response",
            ),
            Error::UrlBuildError { .. } => String::from_str("Failed to build the URL"),
            Error::LaunchFailed { .. } => String::from_str("Failed to open the browser"),
        }
    }

    /// The underlying cause of the failure, so that it stays inspectable
    /// behind the stage's own message.
    pub fn source(&self) -> (cause: Option<&str>)
        ensures
            cause is Some == self@.source() is Some,
            cause matches Some(text) ==> self@.source() == Some(text@),
    {
        match self {
            Error::MissingVariable { cause, .. } => Some(cause.as_str()),
            Error::ProfileMismatch => None,
            Error::ExchangeFailed { cause } => Some(cause.as_str()),
            Error::MalformedResponse { cause } => Some(cause.as_str()),
            Error::UrlBuildError { cause } => Some(cause.as_str()),
            Error::LaunchFailed { cause } => Some(cause.as_str()),
        }
    }
}

} // verus!
