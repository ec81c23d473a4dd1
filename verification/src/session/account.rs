//! The account that a login attempt resolves once its credentials were accepted.

use vstd::prelude::*;

verus! {

/// An account of the OS account directory, held as plain values.
#[derive(Clone, Debug, PartialEq, Eq)]
pub struct Account {
    /// The login name.
    pub name: String,
    /// The user id.
    pub uid: u32,
    /// The primary group id.
    pub gid: u32,
    /// The home directory.
    pub home: String,
    /// The path of the login shell.
    pub shell: String,
}

impl Account {
    /// A copy of this account.
    pub fn duplicate(&self) -> (copy: Account)
        ensures
            copy == *self,
    {
        Account {
            name: self.name.clone(),
            uid: self.uid,
            gid: self.gid,
            home: self.home.clone(),
            shell: self.shell.clone(),
        }
    }
}

} // verus!
