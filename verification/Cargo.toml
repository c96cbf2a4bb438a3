[package]
name = "lottery"
version = "0.1.0"
edition = "2021"
publish = false

[dependencies]
anchor-lang = { version = "=0.29.0", features = ["init-if-needed"] }
anchor-spl = { version = "=0.29.0", default-features = false, features = ["token"] }
orao-solana-vrf = { version = "=0.3.0", default-features = false, features = ["cpi"] }
