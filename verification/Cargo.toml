[package]
name = "redcrab"
version = "0.1.0"
edition = "2021"
publish = false

[dependencies]
cozy-chess = "=0.3.4"
vampirc-uci = "=0.11.1"
