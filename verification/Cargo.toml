[package]
name = "ruglette"
version = "0.1.0"
edition = "2021"
publish = false

[dependencies]
anchor-lang = "=0.31.1"
switchboard-on-demand = { version = "=0.13.0", default-features = false, features = ["solana-v2"] }
