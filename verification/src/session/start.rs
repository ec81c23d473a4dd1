//! The session lifecycle coordinator: one login attempt from the choice of a
//! session to the report of its end, as a machine that names the next
//! operation and takes the reply to it.

use vstd::prelude::*;
use vstd::string::*;
use crate::error::TUILogError;
use crate::session::account::Account;
use crate::session::authenticate::{auth_progress, auth_user, AuthStep};
use crate::session::catalog::Session;
use crate::session::environment::{environment, set_environment, DropStep};
use crate::session::exchange::{Progress, Reply};
use crate::session::shell::{
    launch_progress, session_command, spawn_session, spawn_shell_session, LaunchStep,
};
use crate::text::{pairs_view, texts_view};

verus! {

/// Where a login attempt stands: the operation that is due next.
#[derive(Clone, Copy, Debug, PartialEq, Eq)]
pub enum Stage {
    /// Remember the username and the session for the next login. The outcome is ignored.
    SaveDefaults,
    /// One step of the authentication.
    Authenticate(AuthStep),
    /// Give the screen up to the session. The outcome is ignored.
    ReleaseScreen,
    /// One step of the launch.
    Launch(LaunchStep),
    /// The attempt is over in the launcher; `failure` is what it is reported with.
    Finished { failure: Option<TUILogError> },
}

/// The stage that follows `stage` on `reply`.
pub open spec fn next_stage(stage: Stage, reply: Reply) -> Stage {
    match stage {
        Stage::SaveDefaults => Stage::Authenticate(AuthStep::OpenTransaction),
        Stage::Authenticate(step) => match auth_progress(step, reply) {
            Progress::Next(next) => Stage::Authenticate(next),
            Progress::Complete => Stage::ReleaseScreen,
            Progress::Failed(error) => Stage::Finished { failure: Some(error) },
        },
        Stage::ReleaseScreen => Stage::Launch(LaunchStep::Fork),
        Stage::Launch(step) => match launch_progress(step, reply) {
            Progress::Next(next) => Stage::Launch(next),
            Progress::Complete => Stage::Finished { failure: None },
            Progress::Failed(error) => Stage::Finished { failure: Some(error) },
        },
        Stage::Finished { failure } => Stage::Finished { failure },
    }
}

/// Computes the stage that follows `stage` on `reply`.
pub fn advance_stage(stage: Stage, reply: &Reply) -> (next: Stage)
    ensures
        next == next_stage(stage, *reply),
{
    match stage {
        Stage::SaveDefaults => Stage::Authenticate(AuthStep::OpenTransaction),
        Stage::Authenticate(step) => match auth_user(step, reply) {
            Progress::Next(next) => Stage::Authenticate(next),
            Progress::Complete => Stage::ReleaseScreen,
            Progress::Failed(error) => Stage::Finished { failure: Some(error) },
        },
        Stage::ReleaseScreen => Stage::Launch(LaunchStep::Fork),
        Stage::Launch(step) => match spawn_shell_session(step, reply) {
            Progress::Next(next) => Stage::Launch(next),
            Progress::Complete => Stage::Finished { failure: None },
            Progress::Failed(error) => Stage::Finished { failure: Some(error) },
        },
        Stage::Finished { failure } => Stage::Finished { failure },
    }
}

/// What the caller is asked to do, with all that it needs to do it.
#[derive(Clone, Debug, PartialEq, Eq)]
pub enum Operation {
    /// Store the username and the session's name as the defaults of the next login.
    SaveDefaults { username: String, session_name: String },
    /// Open a transaction with the authentication service under this service name.
    OpenTransaction { service: String },
    /// Hand the credential pair to the transaction and have it verified.
    VerifyCredentials { username: String, secret: String },
    /// Look the username up in the account directory.
    ResolveAccount { username: String },
    /// Open the session accounting of the transaction.
    OpenAccounting,
    /// Give the screen up.
    ReleaseScreen,
    /// Fork the process.
    Fork,
    /// Block until this child has terminated.
    WaitChild { child: i32 },
    /// Close the session accounting and the transaction.
    CloseTransaction,
    /// Become the leader of a new session.
    BecomeSessionLeader,
    /// Find the terminal device behind standard input.
    IdentifyTerminal,
    /// Give the device at `path` to this user and group.
    ChownTerminal { path: String, uid: u32, gid: u32 },
    /// Open the device at `path` for reading and writing.
    OpenTerminal { path: String },
    /// Make this descriptor the controlling terminal.
    ClaimTerminal { descriptor: i32 },
    /// Make the standard stream `stream` (0, 1 or 2) a copy of `descriptor`.
    Redirect { descriptor: i32, stream: i32 },
    /// Close this descriptor.
    CloseDescriptor { descriptor: i32 },
    /// Initialise the supplementary groups of the account `name` with primary group `gid`.
    InitGroups { name: String, gid: u32 },
    /// Set the group id.
    SetGid { gid: u32 },
    /// Set the user id.
    SetUid { uid: u32 },
    /// Set these environment variables, in this order, and enter `directory`.
    ApplyEnvironment { variables: Vec<(String, String)>, directory: String },
    /// Replace the process image by the program `arguments[0]`, run with `arguments`.
    ReplaceImage { arguments: Vec<String> },
    /// Report this failure and exit the process.
    ExitChild { error: TUILogError },
    /// Hand the end of the attempt to the user interface.
    Report { failure: Option<TUILogError> },
}

/// A login attempt: its stage and what its operations need.
#[derive(Clone, Debug, PartialEq, Eq)]
pub struct Login {
    /// The operation that is due.
    pub stage: Stage,
    /// The username that was entered.
    pub username: String,
    /// The secret that was entered; empty once it was handed to the verification.
    pub secret: String,
    /// The session that was chosen.
    pub session: Session,
    /// The account, once the account directory has returned it.
    pub account: Option<Account>,
    /// The path of the terminal device, once it was identified.
    pub terminal: Option<String>,
}

/// The secret that an attempt still holds after the reply to `stage`.
pub open spec fn secret_after(stage: Stage, secret: Seq<char>) -> Seq<char> {
    if stage == Stage::Authenticate(AuthStep::VerifyCredentials) {
        Seq::empty()
    } else {
        secret
    }
}

/// The account that an attempt holds after `reply` to `stage`.
pub open spec fn account_after(stage: Stage, reply: Reply, account: Option<Account>) -> Option<
    Account,
> {
    match reply {
        Reply::Account(found) if stage == Stage::Authenticate(AuthStep::ResolveAccount) => Some(
            found,
        ),
        _ => account,
    }
}

/// The terminal path that an attempt holds after `reply` to `stage`.
pub open spec fn terminal_after(stage: Stage, reply: Reply, terminal: Option<String>) -> Option<
    String,
> {
    match reply {
        Reply::Terminal(path) if stage == Stage::Launch(
            LaunchStep::DropPrivileges(DropStep::IdentifyTerminal),
        ) => Some(path),
        _ => terminal,
    }
}

impl Login {
    /// The attempt holds what its stage needs: the account from the moment it
    /// was resolved until the attempt ends, the terminal path while the
    /// terminal device is handed over and opened.
    pub open spec fn wf(self) -> bool {
        &&& (self.stage is Launch || self.stage is ReleaseScreen || self.stage
            == Stage::Authenticate(AuthStep::OpenAccounting)) ==> self.account is Some
        &&& (self.stage == Stage::Launch(LaunchStep::DropPrivileges(DropStep::ChownTerminal))
            || self.stage == Stage::Launch(LaunchStep::DropPrivileges(DropStep::OpenTerminal)))
            ==> self.terminal is Some
    }

    /// Whether `operation` is what the attempt asks for at its stage, with the
    /// data of the attempt.
    pub open spec fn asks_for(self, operation: Operation) -> bool {
        match self.stage {
            Stage::SaveDefaults => operation matches Operation::SaveDefaults {
                username,
                session_name,
            } && username == self.username && session_name == self.session.name,
            Stage::Authenticate(AuthStep::OpenTransaction) => operation matches Operation::OpenTransaction {
                service,
            } && service@ == "tuilog"@,
            Stage::Authenticate(AuthStep::VerifyCredentials) => operation matches Operation::VerifyCredentials {
                username,
                secret,
            } && username == self.username && secret == self.secret,
            Stage::Authenticate(AuthStep::ResolveAccount) => operation matches Operation::ResolveAccount {
                username,
            } && username == self.username,
            Stage::Authenticate(AuthStep::OpenAccounting) => operation is OpenAccounting,
            Stage::ReleaseScreen => operation is ReleaseScreen,
            Stage::Finished { failure } => operation == (Operation::Report { failure }),
            Stage::Launch(step) => match step {
                LaunchStep::Fork => operation is Fork,
                LaunchStep::WaitChild { child } => operation == (Operation::WaitChild { child }),
                LaunchStep::CloseTransaction { .. } => operation is CloseTransaction,
                LaunchStep::ApplyEnvironment => operation matches Operation::ApplyEnvironment {
                    variables,
                    directory,
                } && pairs_view(variables@) == environment(self.account->0) && directory
                    == self.account->0.home,
                LaunchStep::ReplaceImage => operation matches Operation::ReplaceImage { arguments }
                    && texts_view(arguments@) == session_command(
                    self.account->0.shell@,
                    self.session.command@,
                ),
                LaunchStep::ExitChild { error } => operation == (Operation::ExitChild { error }),
                LaunchStep::DropPrivileges(inner) => match inner {
                    DropStep::BecomeSessionLeader => operation is BecomeSessionLeader,
                    DropStep::IdentifyTerminal => operation is IdentifyTerminal,
                    DropStep::ChownTerminal => operation == (Operation::ChownTerminal {
                        path: self.terminal->0,
                        uid: self.account->0.uid,
                        gid: self.account->0.gid,
                    }),
                    DropStep::OpenTerminal => operation == (Operation::OpenTerminal {
                        path: self.terminal->0,
                    }),
                    DropStep::ClaimTerminal { descriptor } => operation == (
                    Operation::ClaimTerminal { descriptor }),
                    DropStep::RedirectInput { descriptor } => operation == (Operation::Redirect {
                        descriptor,
                        stream: 0,
                    }),
                    DropStep::RedirectOutput { descriptor } => operation == (Operation::Redirect {
                        descriptor,
                        stream: 1,
                    }),
                    DropStep::RedirectError { descriptor } => operation == (Operation::Redirect {
                        descriptor,
                        stream: 2,
                    }),
                    DropStep::CloseDescriptor { descriptor } => operation == (
                    Operation::CloseDescriptor { descriptor }),
                    DropStep::InitGroups => operation == (Operation::InitGroups {
                        name: self.account->0.name,
                        gid: self.account->0.gid,
                    }),
                    DropStep::SetGid => operation == (Operation::SetGid {
                        gid: self.account->0.gid,
                    }),
                    DropStep::SetUid => operation == (Operation::SetUid {
                        uid: self.account->0.uid,
                    }),
                },
            },
        }
    }

    /// Whether the attempt holds what its stage needs.
    pub fn is_well_formed(&self) -> (held: bool)
        ensures
            held == self.wf(),
    {
        let account_needed = match self.stage {
            Stage::Launch(_) => true,
            Stage::ReleaseScreen => true,
            Stage::Authenticate(AuthStep::OpenAccounting) => true,
            _ => false,
        };
        let terminal_needed = match self.stage {
            Stage::Launch(LaunchStep::DropPrivileges(DropStep::ChownTerminal)) => true,
            Stage::Launch(LaunchStep::DropPrivileges(DropStep::OpenTerminal)) => true,
            _ => false,
        };
        (!account_needed || self.account.is_some()) && (!terminal_needed
            || self.terminal.is_some())
    }

    /// The operation that the attempt asks for next.
    pub fn operation(&self) -> (operation: Operation)
        requires
            self.wf(),
        ensures
            self.asks_for(operation),
    {
        match self.stage {
            Stage::SaveDefaults => Operation::SaveDefaults {
                username: self.username.clone(),
                session_name: self.session.name.clone(),
            },
            Stage::Authenticate(AuthStep::OpenTransaction) => Operation::OpenTransaction {
                service: String::from_str("tuilog"),
            },
            Stage::Authenticate(AuthStep::VerifyCredentials) => Operation::VerifyCredentials {
                username: self.username.clone(),
                secret: self.secret.clone(),
            },
            Stage::Authenticate(AuthStep::ResolveAccount) => Operation::ResolveAccount {
                username: self.username.clone(),
            },
            Stage::Authenticate(AuthStep::OpenAccounting) => Operation::OpenAccounting,
            Stage::ReleaseScreen => Operation::ReleaseScreen,
            Stage::Finished { failure } => Operation::Report { failure },
            Stage::Launch(step) => {
                let account = self.account.as_ref().unwrap();
                match step {
                    LaunchStep::Fork => Operation::Fork,
                    LaunchStep::WaitChild { child } => Operation::WaitChild { child },
                    LaunchStep::CloseTransaction { .. } => Operation::CloseTransaction,
                    LaunchStep::ApplyEnvironment => Operation::ApplyEnvironment {
                        variables: set_environment(account),
                        directory: account.home.clone(),
                    },
                    LaunchStep::ReplaceImage => Operation::ReplaceImage {
                        arguments: spawn_session(account, &self.session),
                    },
                    LaunchStep::ExitChild { error } => Operation::ExitChild { error },
                    LaunchStep::DropPrivileges(inner) => match inner {
                        DropStep::BecomeSessionLeader => Operation::BecomeSessionLeader,
                        DropStep::IdentifyTerminal => Operation::IdentifyTerminal,
                        DropStep::ChownTerminal => Operation::ChownTerminal {
                            path: self.terminal.as_ref().unwrap().clone(),
                            uid: account.uid,
                            gid: account.gid,
                        },
                        DropStep::OpenTerminal => Operation::OpenTerminal {
                            path: self.terminal.as_ref().unwrap().clone(),
                        },
                        DropStep::ClaimTerminal { descriptor } => Operation::ClaimTerminal {
                            descriptor,
                        },
                        DropStep::RedirectInput { descriptor } => Operation::Redirect {
                            descriptor,
                            stream: 0,
                        },
                        DropStep::RedirectOutput { descriptor } => Operation::Redirect {
                            descriptor,
                            stream: 1,
                        },
                        DropStep::RedirectError { descriptor } => Operation::Redirect {
                            descriptor,
                            stream: 2,
                        },
                        DropStep::CloseDescriptor { descriptor } => Operation::CloseDescriptor {
                            descriptor,
                        },
                        DropStep::InitGroups => Operation::InitGroups {
                            name: account.name.clone(),
                            gid: account.gid,
                        },
                        DropStep::SetGid => Operation::SetGid { gid: account.gid },
                        DropStep::SetUid => Operation::SetUid { uid: account.uid },
                    },
                }
            },
        }
    }

    /// Takes the reply to the operation that was due and moves to the next
    /// stage. The account and the terminal path are kept from the replies that
    /// bring them; the secret is dropped with the reply to its verification.
    pub fn advance(self, reply: Reply) -> (next: Login)
        requires
            self.wf(),
        ensures
            next.wf(),
            next.stage == next_stage(self.stage, reply),
            next.username == self.username,
            next.session == self.session,
            next.secret@ == secret_after(self.stage, self.secret@),
            next.account == account_after(self.stage, reply, self.account),
            next.terminal == terminal_after(self.stage, reply, self.terminal),
    {
        let Login { stage, username, secret, session, account, terminal } = self;
        let next = advance_stage(stage, &reply);
        let verifying = matches!(stage, Stage::Authenticate(AuthStep::VerifyCredentials));
        let resolving = matches!(stage, Stage::Authenticate(AuthStep::ResolveAccount));
        let identifying = matches!(
            stage,
            Stage::Launch(LaunchStep::DropPrivileges(DropStep::IdentifyTerminal))
        );
        let secret = if verifying {
            String::new()
        } else {
            secret
        };
        let (account, terminal) = match reply {
            Reply::Account(found) => if resolving {
                (Some(found), terminal)
            } else {
                (account, terminal)
            },
            Reply::Terminal(path) => if identifying {
                (account, Some(path))
            } else {
                (account, terminal)
            },
            _ => (account, terminal),
        };
        Login { stage: next, username, secret, session, account, terminal }
    }
}

/// Starts a login attempt with the session at `choice` in `catalog`.
///
/// A choice outside the catalog is refused with `InvalidSessionOption`, and no
/// attempt comes to be: nothing is stored and the authentication service is
/// not asked. Otherwise the attempt stands at its first stage, holding the
/// credential pair and a copy of the chosen session.
pub fn start_session(catalog: &Vec<Session>, username: String, secret: String, choice: usize) -> (started:
    Result<Login, TUILogError>)
    ensures
        choice >= catalog@.len() ==> started == Err::<Login, TUILogError>(
            TUILogError::InvalidSessionOption,
        ),
        choice < catalog@.len() ==> started == Ok::<Login, TUILogError>(
            Login {
                stage: Stage::SaveDefaults,
                username,
                secret,
                session: catalog@[choice as int],
                account: None,
                terminal: None,
            },
        ),
        started matches Ok(login) ==> login.wf(),
{
    if choice >= catalog.len() {
        return Err(TUILogError::InvalidSessionOption);
    }
    Ok(
        Login {
            stage: Stage::SaveDefaults,
            username,
            secret,
            session: catalog[choice].duplicate(),
            account: None,
            terminal: None,
        },
    )
}

} // verus!
