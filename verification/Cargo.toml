[package]
name = "monitor_process_io"
version = "0.1.0"
edition = "2021"
publish = false

[dependencies]
nix = { version = "*", features = ["ptrace", "process", "signal"] }
serde = { version = "1", features = ["derive"] }
toml = "*"
log = "*"
env_logger = "*"
