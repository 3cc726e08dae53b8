[package]
name = "boxupdater"
version = "0.1.0"
edition = "2021"
publish = false

[dependencies]
regex = "1"
serde = { version = "1", features = ["derive"] }
serde_json = "1"
reqwest = { version = "0.12", features = ["json", "stream"] }
futures-util = "0.3"
once_cell = "1"
winapi = { version = "0.3", features = ["fileapi"] }
