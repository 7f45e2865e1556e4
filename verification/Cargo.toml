[package]
name = "phgit_core"
version = "0.1.0"
edition = "2021"
publish = false

[dependencies]
git2 = { version = "*", default-features = false }
base64 = "*"
chrono = "*"
similar = "*"

[dev-dependencies]
tempfile = "*"
