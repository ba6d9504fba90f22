[package]
name = "p2p_rendezvous_server"
version = "0.1.0"
edition = "2021"
publish = false

[dependencies]
clap = { version = "*", features = ["derive"] }
dirs = "*"
igd = { version = "*", features = ["aio"] }
local-ip-address = "*"
parking_lot = "*"
ratatui = "*"
tokio = { version = "*", features = ["rt-multi-thread", "sync", "time", "macros"] }
tracing = "*"
tracing-subscriber = "*"
