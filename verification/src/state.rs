//! What the login manager keeps between runs and reads from its configuration.

pub mod cache;
pub mod config;

pub use cache::{get_default_options, set_default_options, Cache, DefaultOptions};
pub use config::{default_cache_dir, parse_base_color, resolve_path, BaseColor};
