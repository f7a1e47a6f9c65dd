[package]
name = "ticktr"
version = "0.1.0"
edition = "2021"
publish = false

[dependencies]
anchor-lang = "=0.31.2"
mpl-core = { version = "=0.12.1", default-features = false, features = ["anchor"] }
