[package]
name = "process_wrap"
version = "0.1.0"
edition = "2021"
publish = false

[dependencies]
indexmap = "*"
nix = { version = "*", features = ["signal", "process", "poll", "fs"] }
tokio = { version = "*", features = ["process", "rt", "io-util", "time"] }
futures = "*"
