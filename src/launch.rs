use vstd::prelude::*;

verus! {

/// Why starting the target in the active session failed.
#[derive(Clone, Copy, Debug, PartialEq, Eq, Structural)]
pub enum LaunchError {
    /// No user is logged into the active console session.
    NoActiveSession,
    /// Creating the environment block or the process failed with this OS error code.
    LaunchFailed { os_error: i32 },
}

/// The outcome of a launch once a session token was held: the new process's identifier
/// when both the environment block and the process were created, else the OS error.
pub open spec fn launch_outcome(
    environment_created: bool,
    process_created: bool,
    process_id: u32,
    last_error: i32,
) -> Result<u32, LaunchError> {
    if environment_created && process_created {
        Ok(process_id)
    } else {
        Err(LaunchError::LaunchFailed { os_error: last_error })
    }
}

/// Decides the result of a launch from what the session token, environment block and
/// process creation steps reported; a missing token means no user is logged into the session.
pub fn launch_result(
    token_acquired: bool,
    environment_created: bool,
    process_created: bool,
    process_id: u32,
    last_error: i32,
) -> (r: Result<u32, LaunchError>)
    ensures
        !token_acquired ==> r == Err::<u32, LaunchError>(LaunchError::NoActiveSession),
        token_acquired ==> r == launch_outcome(
            environment_created,
            process_created,
            process_id,
            last_error,
        ),
{
    if !token_acquired {
        Err(LaunchError::NoActiveSession)
    } else if environment_created && process_created {
        Ok(process_id)
    } else {
        Err(LaunchError::LaunchFailed { os_error: last_error })
    }
}

/// Which OS resources a launch must give back: exactly those it obtained.
#[derive(Clone, Copy, Debug, PartialEq, Eq, Structural)]
pub struct ReleasePlan {
    pub destroy_environment: bool,
    pub close_thread: bool,
    pub close_process: bool,
    pub close_token: bool,
}

/// Says what to release at the end of a launch, on the success path and on every failure:
/// each resource that was obtained is released once, and none that was not.
pub fn release_plan(token_acquired: bool, environment_created: bool, process_created: bool) -> (r:
    ReleasePlan)
    ensures
        r.close_token == token_acquired,
        r.destroy_environment == (token_acquired && environment_created),
        r.close_thread == (token_acquired && process_created),
        r.close_process == (token_acquired && process_created),
{
    ReleasePlan {
        destroy_environment: token_acquired && environment_created,
        close_thread: token_acquired && process_created,
        close_process: token_acquired && process_created,
        close_token: token_acquired,
    }
}

} // verus!
