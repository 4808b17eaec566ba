//! The failure value handed to the host runtime.

use vstd::prelude::*;
use vstd::string::StringExecFns;

verus! {

/// Status code carried by a failure. The bindings only ever raise generic failures.
#[derive(Debug, Clone, Copy, PartialEq, Eq, Structural)]
pub enum Status {
    GenericFailure,
}

/// A failure as the host runtime sees it: a status and a human readable reason.
#[derive(Debug, Clone, PartialEq, Eq)]
pub struct JsError {
    pub status: Status,
    pub reason: String,
}

impl JsError {
    /// Whether this is a generic failure whose reason reads `reason`.
    pub open spec fn is_generic(self, reason: Seq<char>) -> bool {
        self.status == Status::GenericFailure && self.reason@ == reason
    }

    /// A generic failure whose reason is `reason`.
    pub fn generic(reason: &str) -> (e: JsError)
        ensures
            e.is_generic(reason@),
    {
        JsError { status: Status::GenericFailure, reason: String::from_str(reason) }
    }

    /// A generic failure whose reason is `context` followed by `detail`.
    pub fn with_detail(context: &str, detail: &str) -> (e: JsError)
        ensures
            e.is_generic(context@ + detail@),
    {
        JsError { status: Status::GenericFailure, reason: String::from_str(context).concat(detail) }
    }
}

/// Whether `r` is a generic failure whose reason reads `reason`.
pub open spec fn fails_with<T>(r: Result<T, JsError>, reason: Seq<char>) -> bool {
    r matches Err(e) && e.is_generic(reason)
}

} // verus!
