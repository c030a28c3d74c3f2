[package]
name = "tftp_codec"
version = "0.1.0"
edition = "2021"
publish = false

[dependencies]
clap = "3"
serde = { version = "1", features = ["derive"] }
thiserror = "1"
