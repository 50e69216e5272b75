[package]
name = "cosmic_vitals"
version = "0.1.0"
edition = "2021"
publish = false

[dependencies]
async-stream = "0.3"
hex_color = "*"
indexmap = "2"
log = "0.4"
once_cell = "1"
rand = "0.8"
rust-embed = "8"
serde = { version = "1", features = ["derive"] }
systemd-journal-logger = "2"
tokio = { version = "1", features = ["macros", "rt", "time"] }
tokio-util = "0.7"
