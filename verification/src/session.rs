//! The login attempt: its data, its components and the machine that orders them.

pub mod account;
pub mod authenticate;
pub mod catalog;
pub mod environment;
pub mod exchange;
pub mod shell;
pub mod start;
pub mod trace;
pub mod xsession;

pub use account::Account;
pub use authenticate::{auth_user, AuthStep};
pub use catalog::{get_sessions, Session, SessionType};
pub use environment::{set_environment, set_process_ids, DropStep};
pub use exchange::{Progress, Reply};
pub use shell::{spawn_session, spawn_shell_session, LaunchStep};
pub use start::{advance_stage, start_session, Login, Operation, Stage};
pub use xsession::{add_xsessions, build_catalog, is_desktop_entry, read_desktop_file, session_from_entry, DesktopFile};
