[package]
name = "taskwrap"
version = "0.1.0"
edition = "2021"
publish = false

[dependencies]
clap = { version = "4", features = ["derive"] }
libc = "0.2"
nix = { version = "0.29", features = ["fs", "process", "signal", "term"] }
tokio = { version = "1", features = ["full"] }
which = "6"

[dev-dependencies]
winnow = "0.6"
