[package]
name = "opencog_atoms"
version = "0.1.0"
edition = "2021"
publish = false

[dependencies]
uuid = { version = "1", features = ["v4", "serde"] }
serde = { version = "1", features = ["derive"] }
serde_json = "1"
tokio = { version = "1", features = ["sync", "time", "macros", "rt", "rt-multi-thread"] }
log = "0.4"
anyhow = "1"
salvo = { version = "1", default-features = false, features = ["oapi"] }
