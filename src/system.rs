use vstd::prelude::*;
use vstd::string::*;

verus! {

/// What a request to start or stop a service did.
#[derive(Debug, Clone, Copy, PartialEq, Eq, Structural)]
pub enum StateChange {
    /// The service changed state.
    Changed,
    /// The service already was in the requested state; nothing was done.
    AlreadyActive,
}

/// Given whether the service is running now, what starting it amounts to:
/// `Changed` means that the start command has to be issued.
pub fn ensure_service_started(is_active: bool) -> (r: StateChange)
    ensures
        r == (if is_active {
            StateChange::AlreadyActive
        } else {
            StateChange::Changed
        }),
{
    if is_active {
        StateChange::AlreadyActive
    } else {
        StateChange::Changed
    }
}

/// Given whether the service is running now, what stopping it amounts to:
/// `Changed` means that the stop command has to be issued.
pub fn stop_service(is_active: bool) -> (r: StateChange)
    ensures
        r == (if is_active {
            StateChange::Changed
        } else {
            StateChange::AlreadyActive
        }),
{
    if !is_active {
        StateChange::AlreadyActive
    } else {
        StateChange::Changed
    }
}

/// The service to stop when a handle on `service` is let go: only one that
/// this process is responsible for stopping.
pub fn release_ssh_service(service: &str, stop_on_disconnect: bool) -> (r: Option<String>)
    ensures
        match r {
            Some(s) => stop_on_disconnect && s@ == service@,
            None => !stop_on_disconnect,
        },
{
    if !stop_on_disconnect {
        return None;
    }
    Some(String::from_str(service))
}

} // verus!
