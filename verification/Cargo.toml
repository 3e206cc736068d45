[package]
name = "snake_logic"
version = "0.1.0"
edition = "2021"
publish = false

[dependencies]
log = "0.4"
rand = "0.8"
serde_json = "1"
