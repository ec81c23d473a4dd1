//! The power actions: one remote call each to the login service of the system.

use vstd::prelude::*;
use vstd::string::*;
use crate::error::TUILogError;

verus! {

/// How the exchange with the power service ended.
#[derive(Clone, Copy, Debug, PartialEq, Eq, Structural)]
pub enum PowerReply {
    /// The call returned without an error.
    Done,
    /// The system bus or the service on it could not be reached.
    Unreachable,
    /// The service was reached and the call failed.
    Refused,
}

/// One call to the power service.
#[derive(Clone, Debug, PartialEq, Eq)]
pub struct PowerCall {
    /// The bus name of the service.
    pub destination: String,
    /// The object path of the manager.
    pub path: String,
    /// The interface of the manager.
    pub interface: String,
    /// The method to call.
    pub method: String,
    /// Whether the service may ask the user for authorisation.
    pub interactive: bool,
}

/// Whether `call` is the call of `method` on the login manager, with
/// interactive authorisation allowed.
pub open spec fn calls_manager(call: PowerCall, method: Seq<char>) -> bool {
    &&& call.destination@ == "org.freedesktop.login1"@
    &&& call.path@ == "/org/freedesktop/login1"@
    &&& call.interface@ == "org.freedesktop.login1.Manager"@
    &&& call.method@ == method
    &&& call.interactive
}

/// The result of a power action whose call ended with `reply`, where a call
/// that failed is reported as `refused`.
pub open spec fn power_result(reply: PowerReply, refused: TUILogError) -> Result<(), TUILogError> {
    match reply {
        PowerReply::Done => Ok(()),
        PowerReply::Unreachable => Err(TUILogError::RemoteServiceConnectionFailed),
        PowerReply::Refused => Err(refused),
    }
}

fn manager_call(method: &str) -> (call: PowerCall)
    ensures
        calls_manager(call, method@),
{
    PowerCall {
        destination: String::from_str("org.freedesktop.login1"),
        path: String::from_str("/org/freedesktop/login1"),
        interface: String::from_str("org.freedesktop.login1.Manager"),
        method: String::from_str(method),
        interactive: true,
    }
}

/// The call that switches the machine off.
pub fn shutdown_call() -> (call: PowerCall)
    ensures
        calls_manager(call, "PowerOff"@),
{
    manager_call("PowerOff")
}

/// The call that restarts the machine.
pub fn reboot_call() -> (call: PowerCall)
    ensures
        calls_manager(call, "Reboot"@),
{
    manager_call("Reboot")
}

/// The result of switching the machine off, from how the call ended.
pub fn shutdown(reply: PowerReply) -> (result: Result<(), TUILogError>)
    ensures
        result == power_result(reply, TUILogError::ShutdownFailed),
{
    match reply {
        PowerReply::Done => Ok(()),
        PowerReply::Unreachable => Err(TUILogError::RemoteServiceConnectionFailed),
        PowerReply::Refused => Err(TUILogError::ShutdownFailed),
    }
}

/// The result of restarting the machine, from how the call ended.
pub fn reboot(reply: PowerReply) -> (result: Result<(), TUILogError>)
    ensures
        result == power_result(reply, TUILogError::RebootFailed),
{
    match reply {
        PowerReply::Done => Ok(()),
        PowerReply::Unreachable => Err(TUILogError::RemoteServiceConnectionFailed),
        PowerReply::Refused => Err(TUILogError::RebootFailed),
    }
}

} // verus!
