[package]
name = "serde_beve"
version = "0.1.0"
edition = "2021"
publish = false

[dependencies]
half = "2"
serde = "1"
thiserror = "1"
