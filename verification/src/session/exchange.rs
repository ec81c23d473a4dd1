//! What the caller reports back after performing an operation, and how far a
//! component has come.

use vstd::prelude::*;
use crate::error::TUILogError;
use crate::session::account::Account;

verus! {

/// The caller's report on the operation it was last asked to perform.
#[derive(Clone, Debug, PartialEq, Eq)]
pub enum Reply {
    /// The operation succeeded and has nothing to hand back.
    Done,
    /// The operation failed or could not be attempted.
    Failed,
    /// The account directory holds this account.
    Account(Account),
    /// Standard input is attached to the terminal device at this path.
    Terminal(String),
    /// The terminal device was opened as this descriptor.
    Descriptor(i32),
    /// The process was forked and this is the launcher; the value is the child's process id.
    Parent(i32),
    /// The process was forked and this is the new process.
    Child,
}

/// How far a component of the login attempt has come after a reply.
#[derive(Clone, Copy, Debug, PartialEq, Eq)]
pub enum Progress<S> {
    /// The component goes on with this step.
    Next(S),
    /// The component has done all its steps.
    Complete,
    /// The component gave up with this failure kind; none of its later steps is run.
    Failed(TUILogError),
}

} // verus!
