[package]
name = "opencode-container"
version = "0.1.0"
edition = "2021"
publish = false

[dependencies]
anyhow = "1"
base64 = "0.22"
clap = { version = "4", features = ["derive"] }
clap_complete = "4"
ctrlc = "3"
dirs = "5"
serde_json = "1"
tempfile = "3"
