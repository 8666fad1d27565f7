[package]
name = "mymoulette"
version = "0.1.0"
edition = "2021"
publish = false

[dependencies]
caps = "*"
env_logger = "*"
flate2 = "*"
fs_extra = "*"
log = "*"
nix = { version = "*", features = ["sched", "mount", "hostname", "process", "fs", "user", "signal"] }
rand = "0.8"
reqwest = { version = "*", default-features = false, features = ["blocking", "json", "rustls-tls"] }
seccomp-sys = "*"
serde = { version = "*", features = ["derive"] }
syscall-numbers = "*"
tar = "*"
tempdir = "*"
