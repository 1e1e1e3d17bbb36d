[package]
name = "canister_logs"
version = "0.1.0"
edition = "2021"
publish = false

[dependencies]
time = "0.3"
hex = "0.4"
candid = "0.10"
clap = { version = "4", features = ["derive"] }
