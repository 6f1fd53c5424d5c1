[package]
name = "token_launchpad"
version = "0.1.0"
edition = "2021"
publish = false

[dependencies]
anchor-lang = "=0.30.1"
anchor-spl = { version = "=0.30.1", features = ["metadata"] }
spl-token-2022 = "=3.0.5"
