[package]
name = "admission_core"
version = "0.1.0"
edition = "2021"
publish = false

[dependencies]
sha2 = "0.9"
borsh = { version = "1", features = ["derive"] }
serde = { version = "1", features = ["derive"] }
thiserror = "1"
