//! Error kinds surfaced by the library. Every failure inside a background job
//! is converted at the job boundary into a response carrying one of these,
//! formatted by [`CustomError::message`]; none terminates the worker.
use vstd::prelude::*;
use vstd::string::StringExecFns;

verus! {

/// The error kinds of the library, one per failure domain.
#[derive(Debug)]
pub enum CustomError {
    /// Provider/repository failure.
    RepoError,
    /// Revision-expression parse or resolve failure.
    ExprError,
    /// Configuration failure.
    ConfigError,
    /// Commit lookup or arity failure, with detail.
    CommitError(String),
    /// Infrastructure failure (channel, async bridging), with detail.
    ProcessError(String),
    /// Remote-fetcher request failure.
    RequestError,
    /// Malformed or unsupported URL.
    UrlError,
}

impl CustomError {
    /// The formatted text of this error, as shown on the error screen.
    pub open spec fn spec_message(&self) -> Seq<char> {
        match self {
            CustomError::RepoError => "Repo Error"@,
            CustomError::ExprError => "Expr Error"@,
            CustomError::ConfigError => "Config Error"@,
            CustomError::CommitError(msg) => "Commit Error: "@ + msg@,
            CustomError::ProcessError(msg) => "Process error: "@ + msg@,
            CustomError::RequestError => "Request Error"@,
            CustomError::UrlError => "Url Error"@,
        }
    }

    /// Render the error as a user-visible message.
    pub fn message(&self) -> (r: String)
        ensures
            r@ == self.spec_message(),
    {
        match self {
            CustomError::RepoError => String::from_str("Repo Error"),
            CustomError::ExprError => String::from_str("Expr Error"),
            CustomError::ConfigError => String::from_str("Config Error"),
            CustomError::CommitError(msg) => String::from_str("Commit Error: ").concat(
                msg.as_str(),
            ),
            CustomError::ProcessError(msg) => String::from_str("Process error: ").concat(
                msg.as_str(),
            ),
            CustomError::RequestError => String::from_str("Request Error"),
            CustomError::UrlError => String::from_str("Url Error"),
        }
    }
}

} // verus!
