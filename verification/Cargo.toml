[package]
name = "todo"
version = "0.1.0"
edition = "2021"
publish = false

[dependencies]
ansiterm = "*"
chrono = { version = "0.4", features = ["serde"] }
dirs = "*"
nom = "8"
serde = { version = "1", features = ["derive"] }
serde_derive = "1"
serde_cbor = "0.11"
strum = "*"
strum_macros = "*"
