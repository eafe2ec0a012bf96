[package]
name = "chat_core"
version = "0.1.0"
edition = "2021"
publish = false

[dependencies]
log = "=0.4.34"
spacetimedb = "=2.5.0"
