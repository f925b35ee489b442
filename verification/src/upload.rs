//! Outcome of a single upload attempt, and how the server's answer is
//! classified.

use vstd::prelude::*;

verus! {

/// What one upload attempt came to. The value lives only for that attempt:
/// nothing of it is kept across calls.
pub struct UploadResult {
    /// True exactly when the server answered with a status in the 2xx range.
    pub success: bool,
    /// The status the server answered with, when an answer arrived at all.
    pub status: Option<u16>,
    /// On failure, what is known of the cause: the response body when the
    /// server refused, or a description of the transport or read error.
    pub error_detail: Option<String>,
}

/// A status code counts as success exactly when it lies in the 2xx range.
pub open spec fn is_success_status(status: u16) -> bool {
    200 <= status && status < 300
}

/// Tells whether a received status code counts as success.
pub fn status_is_success(status: u16) -> (r: bool)
    ensures
        r == is_success_status(status),
{
    200 <= status && status < 300
}

/// Classifies a response the server actually gave: success exactly on a 2xx
/// status, and the reported status is the server's own. On any other status
/// the attempt failed and the response body, as far as it could be
/// retrieved, is kept as the error detail.
pub fn response_outcome(status: u16, body: Option<String>) -> (r: UploadResult)
    ensures
        r.success == is_success_status(status),
        r.status == Some(status),
        is_success_status(status) ==> r.error_detail is None,
        !is_success_status(status) ==> r.error_detail == body,
{
    if status_is_success(status) {
        UploadResult { success: true, status: Some(status), error_detail: None }
    } else {
        UploadResult { success: false, status: Some(status), error_detail: body }
    }
}

/// The outcome when no response arrived at all: the connection was refused,
/// timed out or could not be resolved, or the file could not be read before
/// the request was built. There is no status code to report; the
/// description is kept as the error detail.
pub fn attempt_failure(detail: String) -> (r: UploadResult)
    ensures
        !r.success,
        r.status is None,
        r.error_detail == Some(detail),
{
    UploadResult { success: false, status: None, error_detail: Some(detail) }
}

/// The two settings an upload runs in: the one mandatory upload at startup,
/// and the re-uploads triggered from the watch loop.
pub enum UploadPhase {
    Initial,
    Redeploy,
}

/// Says whether a finished attempt must stop the process: only a failure of
/// the initial upload is fatal. A failed redeploy is logged and the watch
/// loop goes on.
pub fn failure_is_fatal(phase: &UploadPhase, result: &UploadResult) -> (r: bool)
    ensures
        r == (phase is Initial && !result.success),
{
    match phase {
        UploadPhase::Initial => !result.success,
        UploadPhase::Redeploy => false,
    }
}

} // verus!
