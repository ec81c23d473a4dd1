[package]
name = "tuilog"
version = "0.1.0"
edition = "2021"
publish = false

[dependencies]
indexmap = "2"
rust-ini = "*"
unicode-width = "*"
text-to-ascii-art = "*"
nix = { version = "0.29", features = ["fs", "user", "process", "ioctl", "term"] }
libc = "0.2"
users = "0.11"
pam = "*"
serde = { version = "1", features = ["derive"] }
toml = "*"
gethostname = "*"
lazy_static = "1"
cursive = { version = "*", default-features = false, features = ["crossterm-backend"] }
zbus = "*"
