[package]
name = "data_forge_rs"
version = "0.1.0"
edition = "2021"
publish = false

[dependencies]
anyhow = "1"
clap = { version = "4", features = ["derive"] }
crossbeam-channel = "0.5"
datafusion = { version = "43", default-features = false, features = ["nested_expressions", "unicode_expressions", "compression", "parquet"] }
enum_dispatch = "0.3"
oneshot = "0.1"
reedline-repl-rs = { version = "1", features = ["derive"] }
tokio = { version = "1", features = ["rt", "rt-multi-thread"] }
