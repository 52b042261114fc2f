[package]
name = "open_digger_cli"
version = "0.1.0"
edition = "2021"
publish = false

[dependencies]
clap = { version = "=4.6.7", features = ["cargo"] }
prettytable-rs = { version = "=0.10.0", default-features = false }
reqwest = "=0.11.27"
serde_json = "=1.0.154"
thiserror = "=1.0.69"
tokio = { version = "=1.54.1", features = ["rt-multi-thread", "time", "net", "sync"] }
