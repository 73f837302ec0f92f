[package]
name = "forkbox"
version = "0.5.0"
edition = "2021"
publish = false

[dependencies]
libc = "0.2"
nix = { version = "0.29", features = ["fs", "mount", "process", "resource", "sched", "signal", "user"] }
serde = { version = "1", features = ["derive"] }
serde_json = "1"
