[package]
name = "tcads_core"
version = "0.1.0"
edition = "2021"
publish = false

[dependencies]
encoding_rs = "=0.8.44"
rand = "=0.8.8"
serde = { version = "1", features = ["derive"] }
thiserror = "2"
