[package]
name = "p4rti"
version = "0.1.0"
edition = "2021"
publish = false

[dependencies]
anyhow = "1"
clap = "2"
colored = "2"
futures = "0.3"
tokio = { version = "1", features = ["macros", "net", "rt-multi-thread", "time"] }
