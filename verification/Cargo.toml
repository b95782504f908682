[package]
name = "openscq30_lib"
version = "0.1.0"
edition = "2021"
publish = false

[dependencies]
macaddr = "1"
serde = { version = "1", features = ["derive"] }
serde_json = "1"
tokio = { version = "1", features = ["sync"] }
