[package]
name = "nvim_bridge"
version = "0.1.0"
edition = "2021"
publish = false

[dependencies]
rmpv = "1"
nvim-rs = { version = "0.9", features = ["use_tokio"] }
tokio = { version = "1", features = ["process", "sync", "rt-multi-thread", "macros"] }
futures = "0.3"
async-trait = "0.1"
async-mutex = "1"
iced = { version = "0.1", features = ["canvas"] }
iced_native = "0.2"
iced_futures = "0.1"
