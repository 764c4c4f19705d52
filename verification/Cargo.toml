[package]
name = "amptree"
version = "0.1.0"
edition = "2021"
publish = false

[dependencies]
symphonia = { version = "0.5", features = ["all"] }
infer = "*"
cpal = "0.15"
anyhow = "1"
serde = { version = "1", features = ["derive"] }
tokio = { version = "1", features = ["fs", "io-util", "sync", "rt"] }
rusqlite = "*"
rusqlite_migration = { version = "*", features = ["from-directory"] }
include_dir = "0.7"
lazy_static = "1"
dirs = "*"
