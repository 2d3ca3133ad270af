[package]
name = "replay_channel"
version = "0.1.0"
edition = "2021"
publish = false

[dependencies]
async-broadcast = "*"
parking_lot = "*"
