[package]
name = "spec_core"
version = "0.1.0"
edition = "2021"
publish = false

[dependencies]
syn = { version = "2", features = ["full", "parsing"] }
proc-macro2 = "1"
serde = { version = "1", features = ["derive"] }
serde_json = "1"
sha2 = "0.10"
toml = "*"
walkdir = "2"
tempfile = "3"
clap = { version = "4", features = ["derive"] }
