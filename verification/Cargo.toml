[package]
name = "clang_log"
version = "1.0.2"
edition = "2021"
publish = false

[dependencies]
colored = "=2.2.0"
log = { version = "=0.4.34", features = ["std"] }
