//! Startup decisions: the input check, what follows the initial upload,
//! and the process exit codes.

use vstd::prelude::*;
use crate::upload::UploadResult;

verus! {

/// The error kinds that end the process at startup. Each of them is fatal
/// and leads to exit code 1.
#[derive(Clone, Copy, PartialEq, Eq, Structural, Debug)]
pub enum StartupError {
    /// The target file does not exist.
    MissingFile,
    /// The HTTP client could not be constructed.
    ClientInit,
    /// The first upload attempt failed, for whatever reason.
    InitialUpload,
    /// The file watch could not be established.
    WatchSubscription,
}

/// The input check that runs before anything else. When the target file
/// does not exist the run is rejected here, before any client is built and
/// before any network call is made; otherwise startup goes on.
pub fn validate_file(file_exists: bool) -> (r: Result<(), StartupError>)
    ensures
        r is Ok <==> file_exists,
        !file_exists ==> r == Result::<(), StartupError>::Err(StartupError::MissingFile),
{
    if file_exists {
        Ok(())
    } else {
        Err(StartupError::MissingFile)
    }
}

/// What follows the one mandatory upload at startup.
#[derive(Clone, Copy, PartialEq, Eq, Structural, Debug)]
pub enum InitialStep {
    /// The attempt failed: the process ends with exit code 1.
    Abort(StartupError),
    /// The attempt succeeded and watch mode is off: a one-shot run,
    /// complete here with exit code 0.
    Done,
    /// The attempt succeeded and watch mode is on: the watch loop begins.
    EnterWatch,
}

/// Decides between the two terminal outcomes of the initial upload and the
/// entry into watch mode: any failure aborts the run; a success either
/// completes it at once or hands over to the watch loop, by the watch flag.
pub fn initial_step(result: &UploadResult, watch: bool) -> (r: InitialStep)
    ensures
        !result.success ==> r == InitialStep::Abort(StartupError::InitialUpload),
        result.success && !watch ==> r == InitialStep::Done,
        result.success && watch ==> r == InitialStep::EnterWatch,
{
    if !result.success {
        InitialStep::Abort(StartupError::InitialUpload)
    } else if watch {
        InitialStep::EnterWatch
    } else {
        InitialStep::Done
    }
}

/// The exit code of a run stopped by a fatal startup error: always 1,
/// whichever of the kinds occurred.
pub fn fatal_exit_code(e: &StartupError) -> (r: i32)
    ensures
        r == 1,
{
    match e {
        StartupError::MissingFile => 1,
        StartupError::ClientInit => 1,
        StartupError::InitialUpload => 1,
        StartupError::WatchSubscription => 1,
    }
}

/// The exit code of a graceful completion: a one-shot run that succeeded,
/// or a watch loop ended by the closure of its channel. Always 0.
pub fn graceful_exit_code() -> (r: i32)
    ensures
        r == 0,
{
    0
}

} // verus!
