//! The session descriptors that a login can launch.

use vstd::prelude::*;
use vstd::string::*;

verus! {

/// The kind of a session.
#[derive(Clone, Copy, Debug, PartialEq, Eq, Structural)]
pub enum SessionType {
    /// The built-in entry: the login shell of the account.
    DefaultShell,
    /// A program that runs on the terminal.
    Shell,
    /// A graphical session found among the desktop entries.
    GraphicalSession,
}

/// One launchable session.
#[derive(Clone, Debug, PartialEq, Eq)]
pub struct Session {
    /// The name under which the session is offered.
    pub name: String,
    /// The command to run; empty for the login shell of the account.
    pub command: String,
    /// The kind of the session.
    pub session_type: SessionType,
}

/// A session as plain values.
pub struct SessionView {
    pub name: Seq<char>,
    pub command: Seq<char>,
    pub session_type: SessionType,
}

impl View for Session {
    type V = SessionView;

    open spec fn view(&self) -> SessionView {
        SessionView { name: self.name@, command: self.command@, session_type: self.session_type }
    }
}

/// The built-in entry that every catalog starts with.
pub open spec fn default_shell() -> SessionView {
    SessionView { name: "shell"@, command: Seq::empty(), session_type: SessionType::DefaultShell }
}

impl Session {
    /// The built-in entry: named `shell`, with no command of its own.
    pub fn default_shell() -> (session: Session)
        ensures
            session@ == default_shell(),
    {
        Session {
            name: String::from_str("shell"),
            command: String::new(),
            session_type: SessionType::DefaultShell,
        }
    }

    /// A copy of this session.
    pub fn duplicate(&self) -> (copy: Session)
        ensures
            copy == *self,
    {
        Session {
            name: self.name.clone(),
            command: self.command.clone(),
            session_type: self.session_type,
        }
    }
}

/// The labels and numbers of the two sessions that need no desktop entry:
/// the login shell under 0 and `startx` under 1.
pub fn get_sessions() -> (sessions: Vec<(String, u8)>)
    ensures
        sessions@.len() == 2,
        sessions@[0].0@ == "shell"@,
        sessions@[0].1 == 0,
        sessions@[1].0@ == "startx"@,
        sessions@[1].1 == 1,
{
    let mut sessions: Vec<(String, u8)> = Vec::new();
    sessions.push((String::from_str("shell"), 0u8));
    sessions.push((String::from_str("startx"), 1u8));
    sessions
}

} // verus!
