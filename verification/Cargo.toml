[package]
name = "cch"
version = "0.1.0"
edition = "2021"
publish = false

[dependencies]
anyhow = "*"
home = "*"
libc = "*"
nix = { version = "*", features = ["user", "fs"] }
rustache = "*"
rustix = { version = "*", features = ["net", "pipe"] }
serde = { version = "*", features = ["derive"] }
serde_json = "*"
tempfile = "*"
