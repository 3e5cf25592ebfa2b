[package]
name = "idpf"
version = "0.1.0"
edition = "2021"
publish = false

[dependencies]
prio = { version = "0.16", features = ["experimental"] }
rand = "0.8"
