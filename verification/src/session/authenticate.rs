//! The credential authenticator: the exchange with the authentication service
//! and the account directory, step by step.

use vstd::prelude::*;
use crate::error::TUILogError;
use crate::session::exchange::{Progress, Reply};

verus! {

/// The steps of an authentication, in the order in which they run.
#[derive(Clone, Copy, Debug, PartialEq, Eq)]
pub enum AuthStep {
    /// Open a transaction with the authentication service.
    OpenTransaction,
    /// Hand the credential pair to the service and have it verified.
    VerifyCredentials,
    /// Look the username up in the account directory.
    ResolveAccount,
    /// Open the service's session accounting.
    OpenAccounting,
}

/// The failure kind that a step of the authentication is reported with.
///
/// Credentials that the service does not accept give `Unauthorized` whether or
/// not the username exists: the account directory is asked only after they were
/// accepted, so `UserNotFound` says nothing to someone who does not hold a
/// valid credential pair.
pub open spec fn auth_failure(step: AuthStep) -> TUILogError {
    match step {
        AuthStep::OpenTransaction => TUILogError::AuthenticationFailed,
        AuthStep::VerifyCredentials => TUILogError::Unauthorized,
        AuthStep::ResolveAccount => TUILogError::UserNotFound,
        AuthStep::OpenAccounting => TUILogError::AuthenticationFailed,
    }
}

/// Whether `reply` reports the success of `step`: an account for
/// `ResolveAccount`, `Done` for the other steps.
pub open spec fn auth_succeeded(step: AuthStep, reply: Reply) -> bool {
    match step {
        AuthStep::ResolveAccount => reply is Account,
        _ => reply is Done,
    }
}

/// Where the authentication stands after `reply` to `step`.
pub open spec fn auth_progress(step: AuthStep, reply: Reply) -> Progress<AuthStep> {
    if !auth_succeeded(step, reply) {
        Progress::Failed(auth_failure(step))
    } else {
        match step {
            AuthStep::OpenTransaction => Progress::Next(AuthStep::VerifyCredentials),
            AuthStep::VerifyCredentials => Progress::Next(AuthStep::ResolveAccount),
            AuthStep::ResolveAccount => Progress::Next(AuthStep::OpenAccounting),
            AuthStep::OpenAccounting => Progress::Complete,
        }
    }
}

/// Decides, from the reply to one step of the authentication, whether the
/// attempt goes on, is authenticated, or is rejected and with which failure kind.
pub fn auth_user(step: AuthStep, reply: &Reply) -> (progress: Progress<AuthStep>)
    ensures
        progress == auth_progress(step, *reply),
{
    match step {
        AuthStep::OpenTransaction => match reply {
            Reply::Done => Progress::Next(AuthStep::VerifyCredentials),
            _ => Progress::Failed(TUILogError::AuthenticationFailed),
        },
        AuthStep::VerifyCredentials => match reply {
            Reply::Done => Progress::Next(AuthStep::ResolveAccount),
            _ => Progress::Failed(TUILogError::Unauthorized),
        },
        AuthStep::ResolveAccount => match reply {
            Reply::Account(_) => Progress::Next(AuthStep::OpenAccounting),
            _ => Progress::Failed(TUILogError::UserNotFound),
        },
        AuthStep::OpenAccounting => match reply {
            Reply::Done => Progress::Complete,
            _ => Progress::Failed(TUILogError::AuthenticationFailed),
        },
    }
}

} // verus!
