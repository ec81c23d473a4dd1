//! A terminal login manager's decision core: which session to launch, in which
//! order the privileged steps of a login run, and what each failure means.

pub mod error;
pub mod session;
pub mod state;
pub mod system_control;
pub mod text;
pub mod tui;
pub mod utils;
