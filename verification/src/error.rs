//! The failure kinds of a login attempt and the fixed text shown for each.

use vstd::prelude::*;

verus! {

/// Every way a login attempt, a power action or the screen set-up can fail.
#[derive(Clone, Copy, Debug, PartialEq, Eq, Structural)]
pub enum TUILogError {
    /// The authentication service could not be reached or refused to account the session.
    AuthenticationFailed,
    /// The credential pair was not accepted.
    Unauthorized,
    /// The credentials were accepted but the account directory has no such account.
    UserNotFound,
    /// The chosen session is not an entry of the catalog.
    InvalidSessionOption,
    /// Session leadership, terminal ownership, terminal control or stream redirection failed.
    TerminalSetupFailed,
    /// Supplementary groups, group id or user id could not be set.
    PrivilegeDropFailed,
    /// The working directory of the account could not be entered.
    EnvironmentSetupFailed,
    /// The process could not be forked, awaited or replaced by the session program.
    LaunchFailed,
    /// The background art could not be read.
    BackgroundArtFailed,
    /// The power service refused to switch the machine off.
    ShutdownFailed,
    /// The power service refused to restart the machine.
    RebootFailed,
    /// The power service could not be reached.
    RemoteServiceConnectionFailed,
}

pub type TUILogResult<T> = Result<T, TUILogError>;

/// The text shown to the user for each failure kind.
pub open spec fn message_text(error: TUILogError) -> Seq<char> {
    match error {
        TUILogError::AuthenticationFailed => "Failed to authenticate."@,
        TUILogError::Unauthorized => "Invalid username or password."@,
        TUILogError::UserNotFound => "No user found with the given username."@,
        TUILogError::InvalidSessionOption => "Invalid session selected."@,
        TUILogError::TerminalSetupFailed => "Failed to redirect standard input and output to terminal."@,
        TUILogError::PrivilegeDropFailed => "Failed to drop user priviledges for session."@,
        TUILogError::EnvironmentSetupFailed => "Failed to setup user environment for session."@,
        TUILogError::LaunchFailed => "Failed to start terminal session."@,
        TUILogError::BackgroundArtFailed => "Failed to draw background art."@,
        TUILogError::ShutdownFailed => "Failed to shutdown system."@,
        TUILogError::RebootFailed => "Failed to reboot."@,
        TUILogError::RemoteServiceConnectionFailed => "Failed to open DBUS connection."@,
    }
}

impl TUILogError {
    /// The fixed message for this failure; it never carries system error text.
    pub fn message(self) -> (text: &'static str)
        ensures
            text@ == message_text(self),
    {
        match self {
            TUILogError::AuthenticationFailed => "Failed to authenticate.",
            TUILogError::Unauthorized => "Invalid username or password.",
            TUILogError::UserNotFound => "No user found with the given username.",
            TUILogError::InvalidSessionOption => "Invalid session selected.",
            TUILogError::TerminalSetupFailed => "Failed to redirect standard input and output to terminal.",
            TUILogError::PrivilegeDropFailed => "Failed to drop user priviledges for session.",
            TUILogError::EnvironmentSetupFailed => "Failed to setup user environment for session.",
            TUILogError::LaunchFailed => "Failed to start terminal session.",
            TUILogError::BackgroundArtFailed => "Failed to draw background art.",
            TUILogError::ShutdownFailed => "Failed to shutdown system.",
            TUILogError::RebootFailed => "Failed to reboot.",
            TUILogError::RemoteServiceConnectionFailed => "Failed to open DBUS connection.",
        }
    }
}

/// Replaces whatever a fallible value failed with by one failure kind of this library.
pub trait TUILogErrorMap<T>: Sized {
    type Return;

    /// What `tuilog_err` returns for this value and that failure kind.
    spec fn mapped(self, error: TUILogError) -> Self::Return;

    fn tuilog_err(self, error: TUILogError) -> (mapped: Self::Return)
        ensures
            mapped == self.mapped(error),
    ;
}

impl<T, E> TUILogErrorMap<T> for Result<T, E> {
    type Return = TUILogResult<T>;

    open spec fn mapped(self, error: TUILogError) -> TUILogResult<T> {
        match self {
            Ok(value) => Ok(value),
            Err(_) => Err(error),
        }
    }

    fn tuilog_err(self, error: TUILogError) -> (mapped: TUILogResult<T>) {
        match self {
            Ok(value) => Ok(value),
            Err(_) => Err(error),
        }
    }
}

impl<T> TUILogErrorMap<T> for Option<T> {
    type Return = TUILogResult<T>;

    open spec fn mapped(self, error: TUILogError) -> TUILogResult<T> {
        match self {
            Some(value) => Ok(value),
            None => Err(error),
        }
    }

    fn tuilog_err(self, error: TUILogError) -> (mapped: TUILogResult<T>) {
        match self {
            Some(value) => Ok(value),
            None => Err(error),
        }
    }
}

} // verus!
