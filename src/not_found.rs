//! What an action does when the entity it targets does not exist.
use crate::error::{AppError, ErrorCode, app_error};
use crate::json::{str_eq, Json};
use vstd::prelude::*;

verus! {

/// The four outcomes of a not-found event.
#[derive(Clone, Copy, Debug, PartialEq, Eq, Structural)]
pub enum NotFoundPolicy {
    /// Succeed with a placeholder value.
    Continue,
    /// Fail with `CompleteParent`.
    ExitLevel,
    /// Fail with `CompleteWorkflow`.
    ExitExecution,
    /// Fail with `Other`.
    Fail,
}

/// The policy that a selector names; any unrecognised selector means `Fail`.
pub open spec fn policy_of(selector: Seq<char>) -> NotFoundPolicy {
    if selector == "continue"@ {
        NotFoundPolicy::Continue
    } else if selector == "exit_level"@ {
        NotFoundPolicy::ExitLevel
    } else if selector == "exit_execution"@ {
        NotFoundPolicy::ExitExecution
    } else {
        NotFoundPolicy::Fail
    }
}

/// The error code of a policy's failure; none for `Continue`.
pub open spec fn failure_code(p: NotFoundPolicy) -> Option<ErrorCode> {
    match p {
        NotFoundPolicy::Continue => None,
        NotFoundPolicy::ExitLevel => Some(ErrorCode::CompleteParent),
        NotFoundPolicy::ExitExecution => Some(ErrorCode::CompleteWorkflow),
        NotFoundPolicy::Fail => Some(ErrorCode::Other),
    }
}

/// The outcome of a not-found event under a policy: the placeholder, or an
/// error with the policy's code and the given message.
pub open spec fn not_found_outcome(
    p: NotFoundPolicy,
    placeholder: Json,
    message: Seq<char>,
    r: Result<Json, AppError>,
) -> bool {
    match failure_code(p) {
        None => r == Ok::<Json, AppError>(placeholder),
        Some(code) => r matches Err(e) && e.code == code && e.message@ == message,
    }
}

impl NotFoundPolicy {
    /// Reads a selector.
    pub fn from_selector(selector: &str) -> (r: NotFoundPolicy)
        ensures
            r == policy_of(selector@),
    {
        if str_eq(selector, "continue") {
            NotFoundPolicy::Continue
        } else if str_eq(selector, "exit_level") {
            NotFoundPolicy::ExitLevel
        } else if str_eq(selector, "exit_execution") {
            NotFoundPolicy::ExitExecution
        } else {
            NotFoundPolicy::Fail
        }
    }
}

/// Applies a policy to a not-found event.
pub fn handle_not_found(policy: NotFoundPolicy, placeholder: Json, message: &str) -> (r: Result<
    Json,
    AppError,
>)
    ensures
        not_found_outcome(policy, placeholder, message@, r),
{
    match policy {
        NotFoundPolicy::Continue => Ok(placeholder),
        NotFoundPolicy::ExitLevel => Err(app_error(ErrorCode::CompleteParent, message)),
        NotFoundPolicy::ExitExecution => Err(app_error(ErrorCode::CompleteWorkflow, message)),
        NotFoundPolicy::Fail => Err(app_error(ErrorCode::Other, message)),
    }
}

/// `continue` always succeeds with the placeholder; `exit_level` and
/// `exit_execution` always fail with `CompleteParent` and `CompleteWorkflow`,
/// whatever the placeholder and message; any selector that is none of the
/// three acts exactly as `fail`.
pub proof fn lemma_not_found_policy(selector: Seq<char>)
    ensures
        failure_code(policy_of("continue"@)) is None,
        failure_code(policy_of("exit_level"@)) == Some(ErrorCode::CompleteParent),
        failure_code(policy_of("exit_execution"@)) == Some(ErrorCode::CompleteWorkflow),
        failure_code(policy_of("fail"@)) == Some(ErrorCode::Other),
        selector != "continue"@ && selector != "exit_level"@ && selector != "exit_execution"@
            ==> policy_of(selector) == policy_of("fail"@),
{
    reveal_strlit("continue");
    reveal_strlit("exit_level");
    reveal_strlit("exit_execution");
    reveal_strlit("fail");
    assert("exit_execution"@ != "continue"@) by {
        assert("exit_execution"@.len() != "continue"@.len());
    }
    assert("exit_execution"@ != "exit_level"@) by {
        assert("exit_execution"@.len() != "exit_level"@.len());
    }
    assert("exit_level"@ != "continue"@) by {
        assert("exit_level"@.len() != "continue"@.len());
    }
    assert("fail"@ != "continue"@) by {
        assert("fail"@.len() != "continue"@.len());
    }
    assert("fail"@ != "exit_level"@) by {
        assert("fail"@.len() != "exit_level"@.len());
    }
    assert("fail"@ != "exit_execution"@) by {
        assert("fail"@.len() != "exit_execution"@.len());
    }
}

} // verus!
