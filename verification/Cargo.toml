[package]
name = "filter_fund"
version = "0.1.0"
edition = "2021"
publish = false

[dependencies]
clap = "2.34"
futures = "0.3"
jsonrpc-core = "18.0"
jsonrpc-derive = "18.0"
serde = { version = "1", features = ["derive"] }
