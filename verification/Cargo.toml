[package]
name = "open_sesame"
version = "0.1.0"
edition = "2021"
publish = false

[dependencies]
clap = { version = "*", features = ["derive"] }
dirs = "*"
libc = "*"
serde = { version = "*", features = ["derive"] }
thiserror = "*"
toml = "*"
