[package]
name = "extern_executor"
version = "0.1.0"
edition = "2021"
publish = false

[dependencies]
futures = "*"
futures-task = "*"
dart-sys = "*"
tokio = { version = "1", features = ["rt-multi-thread", "time", "fs", "net", "io-util"] }
