use vstd::prelude::*;

verus! {

/// How the host engine should treat a failed action.
#[derive(Clone, Copy, Debug, PartialEq, Eq, Structural)]
pub enum ErrorCode {
    /// Required connection or path data is missing or invalid.
    Misconfigured,
    /// The remote API answered with a body that is not the expected JSON.
    MalformedResponse,
    /// Stop the current nesting level of the workflow.
    CompleteParent,
    /// Stop the whole workflow run.
    CompleteWorkflow,
    /// Any other failure.
    Other,
}

/// A typed failure with a human-readable message.
#[derive(Debug)]
pub struct AppError {
    pub code: ErrorCode,
    pub message: String,
}

/// Whether a result is a failure with the given code.
pub open spec fn fails_with<T>(r: Result<T, AppError>, code: ErrorCode) -> bool {
    r matches Err(e) && e.code == code
}

/// Builds an error from a code and a message literal.
pub fn app_error(code: ErrorCode, message: &str) -> (r: AppError)
    ensures
        r.code == code,
        r.message@ == message@,
{
    AppError { code, message: String::from_str(message) }
}

} // verus!
