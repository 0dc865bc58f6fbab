[package]
name = "tunnelto_protocol"
version = "0.1.0"
edition = "2021"
publish = false

[dependencies]
base64 = "0.13"
hex = "0.4"
human-panic = "1"
rand = "0.7"
serde = { version = "1", features = ["derive"] }
sha2 = "0.9"
tokio = { version = "1", features = ["macros", "rt-multi-thread", "sync"] }
