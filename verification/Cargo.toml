[package]
name = "sonic_channel"
version = "0.1.0"
edition = "2021"
publish = false

[dependencies]
async-io = "*"
async-trait = "*"
futures-lite = "*"
