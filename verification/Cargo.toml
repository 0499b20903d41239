[package]
name = "reth_p256"
version = "0.1.0"
edition = "2021"
publish = false

[dependencies]
alloy-eips = "*"
alloy-evm = "=0.39.0"
alloy-genesis = "*"
alloy-primitives = "*"
clap = { version = "4", features = ["derive"] }
eyre = "0.6"
tracing = "0.1"
