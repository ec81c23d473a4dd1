//! The record of the last login: the username and the session that were used.

use vstd::prelude::*;

verus! {

/// The stored record as a whole.
#[derive(Clone, Debug, PartialEq, Eq)]
pub struct Cache {
    /// The defaults of the next login, if any were stored.
    pub default: Option<DefaultOptions>,
}

/// The defaults that the login screen starts with.
#[derive(Clone, Debug, PartialEq, Eq)]
pub struct DefaultOptions {
    /// The username to fill in.
    pub username: Option<String>,
    /// The name of the session to select.
    pub session_name: Option<String>,
}

/// The record that is stored when `username` logs in to the session `session_name`.
pub fn set_default_options(username: String, session_name: String) -> (cache: Cache)
    ensures
        cache == (Cache {
            default: Some(
                DefaultOptions { username: Some(username), session_name: Some(session_name) },
            ),
        }),
{
    Cache {
        default: Some(
            DefaultOptions { username: Some(username), session_name: Some(session_name) },
        ),
    }
}

/// The defaults that a stored record gives: those it holds, and none at all
/// where nothing could be read or the record holds none.
pub fn get_default_options(cache: Option<Cache>) -> (options: DefaultOptions)
    ensures
        options == match cache {
            Some(Cache { default: Some(stored) }) => stored,
            _ => DefaultOptions { username: None, session_name: None },
        },
{
    match cache {
        Some(Cache { default: Some(stored) }) => stored,
        _ => DefaultOptions { username: None, session_name: None },
    }
}

} // verus!
