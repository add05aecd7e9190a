[package]
name = "zaprett"
version = "0.1.0"
edition = "2021"
publish = false

[dependencies]
regex = "1"
rust-ini = "*"
serde = { version = "1", features = ["derive"] }
serde_json = "1"
clap = { version = "4", features = ["derive"] }
tokio = { version = "1", features = ["rt-multi-thread", "macros"] }
anyhow = "1"
log = "0.4"
pretty_env_logger = "*"
daemonize = "*"
iptables = "*"
sysctl = "*"
procfs = "*"
libc = "0.2"
