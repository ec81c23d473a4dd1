//! The process launcher: the fork, the launcher's wait for the child, and the
//! child's way to the session program.

use vstd::prelude::*;
use vstd::string::*;
use crate::error::TUILogError;
use crate::session::account::Account;
use crate::session::catalog::Session;
use crate::session::environment::{drop_progress, set_process_ids, DropStep};
use crate::session::exchange::{Progress, Reply};
use crate::text::texts_view;

verus! {

/// The program that a session runs: its own command, or the login shell at
/// `shell` where it has none.
pub open spec fn session_program(shell: Seq<char>, command: Seq<char>) -> Seq<char> {
    if command.len() == 0 {
        shell
    } else {
        command
    }
}

/// The argument list that replaces the process image: the login shell, as a
/// login shell, running one command line that resets the terminal and then
/// gives way to the session's program, itself started as a login shell.
pub open spec fn session_command(shell: Seq<char>, command: Seq<char>) -> Seq<Seq<char>> {
    seq![
        shell,
        "-l"@,
        "-c"@,
        "stty sane; tput sgr0; tput cnorm; clear; exec "@ + session_program(shell, command) + " -l"@,
    ]
}

/// Builds the argument list with which the process of `account` becomes `session`.
pub fn spawn_session(account: &Account, session: &Session) -> (arguments: Vec<String>)
    ensures
        texts_view(arguments@) == session_command(account.shell@, session.command@),
{
    let program = if session.command.as_str().is_empty() {
        account.shell.as_str()
    } else {
        session.command.as_str()
    };
    let line = String::from_str("stty sane; tput sgr0; tput cnorm; clear; exec ").concat(
        program,
    ).concat(" -l");
    let mut arguments: Vec<String> = Vec::new();
    arguments.push(account.shell.clone());
    arguments.push(String::from_str("-l"));
    arguments.push(String::from_str("-c"));
    arguments.push(line);
    assert(texts_view(arguments@) =~= session_command(account.shell@, session.command@));
    arguments
}

/// The steps of a launch. `Fork` is where the launcher and the new process
/// part: the launcher goes on with `WaitChild`, the new process with
/// `DropPrivileges`.
#[derive(Clone, Copy, Debug, PartialEq, Eq)]
pub enum LaunchStep {
    /// Fork the process.
    Fork,
    /// Launcher: block until the child has terminated.
    WaitChild { child: i32 },
    /// Launcher: close the authentication transaction; `failure` is what the
    /// launch is reported with afterwards.
    CloseTransaction { failure: Option<TUILogError> },
    /// New process: one step of the privilege transition.
    DropPrivileges(DropStep),
    /// New process: set the environment variables and enter the home directory.
    ApplyEnvironment,
    /// New process: replace the process image by the session program.
    ReplaceImage,
    /// New process: report the failure and exit. Nothing follows.
    ExitChild { error: TUILogError },
}

/// Where the launch stands after `reply` to `step`.
///
/// The launcher closes the transaction after the wait has returned, or at once
/// when no child came to be, and only then reports. The new process exits on
/// the first failure; a reply to `ReplaceImage` means that the image was not
/// replaced.
pub open spec fn launch_progress(step: LaunchStep, reply: Reply) -> Progress<LaunchStep> {
    match step {
        LaunchStep::Fork => match reply {
            Reply::Parent(child) => Progress::Next(LaunchStep::WaitChild { child }),
            Reply::Child => Progress::Next(
                LaunchStep::DropPrivileges(DropStep::BecomeSessionLeader),
            ),
            _ => Progress::Next(
                LaunchStep::CloseTransaction { failure: Some(TUILogError::LaunchFailed) },
            ),
        },
        LaunchStep::WaitChild { .. } => Progress::Next(
            LaunchStep::CloseTransaction {
                failure: if reply is Done {
                    None
                } else {
                    Some(TUILogError::LaunchFailed)
                },
            },
        ),
        LaunchStep::CloseTransaction { failure } => match failure {
            None => Progress::Complete,
            Some(error) => Progress::Failed(error),
        },
        LaunchStep::DropPrivileges(inner) => match drop_progress(inner, reply) {
            Progress::Next(next) => Progress::Next(LaunchStep::DropPrivileges(next)),
            Progress::Complete => Progress::Next(LaunchStep::ApplyEnvironment),
            Progress::Failed(error) => Progress::Next(LaunchStep::ExitChild { error }),
        },
        LaunchStep::ApplyEnvironment => Progress::Next(
            if reply is Done {
                LaunchStep::ReplaceImage
            } else {
                LaunchStep::ExitChild { error: TUILogError::EnvironmentSetupFailed }
            },
        ),
        LaunchStep::ReplaceImage => Progress::Next(
            LaunchStep::ExitChild { error: TUILogError::LaunchFailed },
        ),
        LaunchStep::ExitChild { error } => Progress::Next(LaunchStep::ExitChild { error }),
    }
}

/// Decides, from the reply to one step of the launch, what comes next on
/// either side of the fork.
pub fn spawn_shell_session(step: LaunchStep, reply: &Reply) -> (progress: Progress<LaunchStep>)
    ensures
        progress == launch_progress(step, *reply),
{
    let done = matches!(reply, Reply::Done);
    match step {
        LaunchStep::Fork => match reply {
            Reply::Parent(child) => Progress::Next(LaunchStep::WaitChild { child: *child }),
            Reply::Child => Progress::Next(
                LaunchStep::DropPrivileges(DropStep::BecomeSessionLeader),
            ),
            _ => Progress::Next(
                LaunchStep::CloseTransaction { failure: Some(TUILogError::LaunchFailed) },
            ),
        },
        LaunchStep::WaitChild { .. } => if done {
            Progress::Next(LaunchStep::CloseTransaction { failure: None })
        } else {
            Progress::Next(
                LaunchStep::CloseTransaction { failure: Some(TUILogError::LaunchFailed) },
            )
        },
        LaunchStep::CloseTransaction { failure } => match failure {
            None => Progress::Complete,
            Some(error) => Progress::Failed(error),
        },
        LaunchStep::DropPrivileges(inner) => match set_process_ids(inner, reply) {
            Progress::Next(next) => Progress::Next(LaunchStep::DropPrivileges(next)),
            Progress::Complete => Progress::Next(LaunchStep::ApplyEnvironment),
            Progress::Failed(error) => Progress::Next(LaunchStep::ExitChild { error }),
        },
        LaunchStep::ApplyEnvironment => if done {
            Progress::Next(LaunchStep::ReplaceImage)
        } else {
            Progress::Next(LaunchStep::ExitChild { error: TUILogError::EnvironmentSetupFailed })
        },
        LaunchStep::ReplaceImage => Progress::Next(
            LaunchStep::ExitChild { error: TUILogError::LaunchFailed },
        ),
        LaunchStep::ExitChild { error } => Progress::Next(LaunchStep::ExitChild { error }),
    }
}

} // verus!
