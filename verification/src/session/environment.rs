//! The environment and the privilege transition of the process that is about
//! to become the user.

use vstd::prelude::*;
use vstd::string::*;
use crate::error::TUILogError;
use crate::session::account::Account;
use crate::session::exchange::{Progress, Reply};
use crate::text::{decimal, pairs_view, to_decimal};

verus! {

/// The environment variables of a session of `account`, in the order in which
/// they are set.
pub open spec fn environment(account: Account) -> Seq<(Seq<char>, Seq<char>)> {
    seq![
        ("USER"@, account.name@),
        ("LOGNAME"@, account.name@),
        ("HOME"@, account.home@),
        ("SHELL"@, account.shell@),
        ("TERM"@, "linux"@),
        ("XDG_SESSION_TYPE"@, "tty"@),
        ("XDG_RUNTIME_DIR"@, "/run/user/"@ + decimal(account.uid as nat)),
    ]
}

/// Builds the environment variables that the session of `account` starts with.
pub fn set_environment(account: &Account) -> (variables: Vec<(String, String)>)
    ensures
        pairs_view(variables@) == environment(*account),
{
    let mut variables: Vec<(String, String)> = Vec::new();
    variables.push((String::from_str("USER"), account.name.clone()));
    variables.push((String::from_str("LOGNAME"), account.name.clone()));
    variables.push((String::from_str("HOME"), account.home.clone()));
    variables.push((String::from_str("SHELL"), account.shell.clone()));
    variables.push((String::from_str("TERM"), String::from_str("linux")));
    variables.push((String::from_str("XDG_SESSION_TYPE"), String::from_str("tty")));
    let number = to_decimal(account.uid);
    variables.push(
        (String::from_str("XDG_RUNTIME_DIR"), String::from_str("/run/user/").concat(number.as_str())),
    );
    assert(pairs_view(variables@) =~= environment(*account));
    variables
}

/// The steps of the privilege transition, in the one order in which they run.
#[derive(Clone, Copy, Debug, PartialEq, Eq)]
pub enum DropStep {
    /// Become the leader of a new session and process group.
    BecomeSessionLeader,
    /// Find the terminal device that standard input is attached to.
    IdentifyTerminal,
    /// Hand the terminal device to the account's user and group.
    ChownTerminal,
    /// Open the terminal device for reading and writing.
    OpenTerminal,
    /// Make the opened terminal the controlling terminal.
    ClaimTerminal { descriptor: i32 },
    /// Redirect standard input to the terminal.
    RedirectInput { descriptor: i32 },
    /// Redirect standard output to the terminal.
    RedirectOutput { descriptor: i32 },
    /// Redirect standard error to the terminal.
    RedirectError { descriptor: i32 },
    /// Close the terminal descriptor, which is none of the three standard streams.
    CloseDescriptor { descriptor: i32 },
    /// Initialise the supplementary groups of the account.
    InitGroups,
    /// Set the group id.
    SetGid,
    /// Set the user id; nothing that needs privilege comes after it.
    SetUid,
}

/// The failure kind that a step of the privilege transition is reported with.
pub open spec fn drop_failure(step: DropStep) -> TUILogError {
    match step {
        DropStep::InitGroups | DropStep::SetGid | DropStep::SetUid => TUILogError::PrivilegeDropFailed,
        _ => TUILogError::TerminalSetupFailed,
    }
}

/// The step after the redirection of the three standard streams: the extra
/// descriptor is closed unless it is itself one of the three.
pub open spec fn after_redirection(descriptor: i32) -> DropStep {
    if descriptor > 2 {
        DropStep::CloseDescriptor { descriptor }
    } else {
        DropStep::InitGroups
    }
}

/// Where the privilege transition stands after `reply` to `step`.
///
/// A step succeeds on the one reply that it is made for: `Terminal` for
/// `IdentifyTerminal`, `Descriptor` with a descriptor that is not negative
/// for `OpenTerminal`, `Done` for the others. Every other reply fails the
/// step with its failure kind, but for `CloseDescriptor`, whose outcome is
/// ignored.
pub open spec fn drop_progress(step: DropStep, reply: Reply) -> Progress<DropStep> {
    match step {
        DropStep::IdentifyTerminal => match reply {
            Reply::Terminal(_) => Progress::Next(DropStep::ChownTerminal),
            _ => Progress::Failed(TUILogError::TerminalSetupFailed),
        },
        DropStep::OpenTerminal => match reply {
            Reply::Descriptor(descriptor) if descriptor >= 0 => Progress::Next(
                DropStep::ClaimTerminal { descriptor },
            ),
            _ => Progress::Failed(TUILogError::TerminalSetupFailed),
        },
        DropStep::CloseDescriptor { .. } => Progress::Next(DropStep::InitGroups),
        _ => if reply is Done {
            match step {
                DropStep::BecomeSessionLeader => Progress::Next(DropStep::IdentifyTerminal),
                DropStep::ChownTerminal => Progress::Next(DropStep::OpenTerminal),
                DropStep::ClaimTerminal { descriptor } => Progress::Next(
                    DropStep::RedirectInput { descriptor },
                ),
                DropStep::RedirectInput { descriptor } => Progress::Next(
                    DropStep::RedirectOutput { descriptor },
                ),
                DropStep::RedirectOutput { descriptor } => Progress::Next(
                    DropStep::RedirectError { descriptor },
                ),
                DropStep::RedirectError { descriptor } => Progress::Next(
                    after_redirection(descriptor),
                ),
                DropStep::InitGroups => Progress::Next(DropStep::SetGid),
                DropStep::SetGid => Progress::Next(DropStep::SetUid),
                _ => Progress::Complete,
            }
        } else {
            Progress::Failed(drop_failure(step))
        },
    }
}

/// Decides, from the reply to one step of the privilege transition, what the
/// process does next: the following step, nothing more once the user id is
/// set, or give up with the failure kind of the step that failed.
pub fn set_process_ids(step: DropStep, reply: &Reply) -> (progress: Progress<DropStep>)
    ensures
        progress == drop_progress(step, *reply),
{
    let done = matches!(reply, Reply::Done);
    match step {
        DropStep::BecomeSessionLeader => if done {
            Progress::Next(DropStep::IdentifyTerminal)
        } else {
            Progress::Failed(TUILogError::TerminalSetupFailed)
        },
        DropStep::IdentifyTerminal => match reply {
            Reply::Terminal(_) => Progress::Next(DropStep::ChownTerminal),
            _ => Progress::Failed(TUILogError::TerminalSetupFailed),
        },
        DropStep::ChownTerminal => if done {
            Progress::Next(DropStep::OpenTerminal)
        } else {
            Progress::Failed(TUILogError::TerminalSetupFailed)
        },
        DropStep::OpenTerminal => match reply {
            Reply::Descriptor(descriptor) => if *descriptor >= 0 {
                Progress::Next(DropStep::ClaimTerminal { descriptor: *descriptor })
            } else {
                Progress::Failed(TUILogError::TerminalSetupFailed)
            },
            _ => Progress::Failed(TUILogError::TerminalSetupFailed),
        },
        DropStep::ClaimTerminal { descriptor } => if done {
            Progress::Next(DropStep::RedirectInput { descriptor })
        } else {
            Progress::Failed(TUILogError::TerminalSetupFailed)
        },
        DropStep::RedirectInput { descriptor } => if done {
            Progress::Next(DropStep::RedirectOutput { descriptor })
        } else {
            Progress::Failed(TUILogError::TerminalSetupFailed)
        },
        DropStep::RedirectOutput { descriptor } => if done {
            Progress::Next(DropStep::RedirectError { descriptor })
        } else {
            Progress::Failed(TUILogError::TerminalSetupFailed)
        },
        DropStep::RedirectError { descriptor } => if !done {
            Progress::Failed(TUILogError::TerminalSetupFailed)
        } else if descriptor > 2 {
            Progress::Next(DropStep::CloseDescriptor { descriptor })
        } else {
            Progress::Next(DropStep::InitGroups)
        },
        DropStep::CloseDescriptor { .. } => Progress::Next(DropStep::InitGroups),
        DropStep::InitGroups => if done {
            Progress::Next(DropStep::SetGid)
        } else {
            Progress::Failed(TUILogError::PrivilegeDropFailed)
        },
        DropStep::SetGid => if done {
            Progress::Next(DropStep::SetUid)
        } else {
            Progress::Failed(TUILogError::PrivilegeDropFailed)
        },
        DropStep::SetUid => if done {
            Progress::Complete
        } else {
            Progress::Failed(TUILogError::PrivilegeDropFailed)
        },
    }
}

} // verus!
