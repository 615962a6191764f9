[package]
name = "shiv"
version = "0.1.0"
edition = "2021"
publish = false

[dependencies]
arboard = { version = "3", default-features = false }
clap = { version = "4", features = ["derive"] }
clap-verbosity-flag = "2"
env_logger = "0.10"
evdev = { version = "0.12", features = ["tokio"] }
log = "0.4"
nix = "0.26"
shlex = "1"
tokio = { version = "1", features = ["macros", "rt-multi-thread", "sync", "process", "time"] }
tokio-stream = "0.1"
