[package]
name = "udp_relay"
version = "0.1.0"
edition = "2021"
publish = false

[dependencies]
hashbrown = "0.15"
tokio = { version = "1", features = ["net", "rt-multi-thread", "macros"] }
clap = { version = "4", features = ["derive"] }
