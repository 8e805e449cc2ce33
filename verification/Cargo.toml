[package]
name = "rugby"
version = "0.1.0"
edition = "2021"
publish = false

[dependencies]
owo-colors = "4"
indexmap = "2"
log = "0.4"
thiserror = "2"
clap = { version = "4", features = ["derive"] }
serde = { version = "1", features = ["derive"] }
rustyline = "*"
dirs = "*"
toml = "*"
