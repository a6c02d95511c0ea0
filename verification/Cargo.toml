[package]
name = "geforcenow-awdl0"
version = "0.1.0"
edition = "2021"
publish = false

[dependencies]
libc = "0.2"
nix = { version = "*", features = ["socket"] }
clap = { version = "4", features = ["derive"] }
thiserror = "*"
tracing = "0.1"
tracing-subscriber = { version = "0.3", features = ["env-filter"] }
block2 = "*"
objc2 = "*"
objc2-app-kit = "*"
objc2-foundation = "*"
core-foundation = "*"
core-graphics = "*"
system-configuration = "*"
