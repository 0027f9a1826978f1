[package]
name = "libcdio-rs"
version = "0.1.0"
edition = "2021"
publish = false

[dependencies]
file-mode = "*"
libcdio-sys = "*"
anyhow = "1"
clap = { version = "4", features = ["derive"] }
thiserror = "2"
time = { version = "0.3", features = ["formatting", "macros", "local-offset"] }
tracing = "0.1"
tracing-subscriber = { version = "0.3", features = ["env-filter"] }
