[package]
name = "fee_split"
version = "0.1.0"
edition = "2021"
publish = false

[dependencies]
anchor-lang = "=0.32.2"
anchor-spl = { version = "=0.32.2", default-features = false, features = ["token"] }
