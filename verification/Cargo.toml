[package]
name = "cdp_treasury"
version = "0.1.0"
edition = "2021"
publish = false

[dependencies]
sp-runtime = "=2.0.1"
sp-std = "=2.0.1"
frame-support = "=2.0.1"
frame-system = "=2.0.1"
orml-traits = "=0.3.2"
orml-utilities = "=0.3.2"
parity-scale-codec = { version = "=1.3.7", features = ["derive"] }
serde = { version = "1.0", features = ["derive"] }
substrate-bip39 = "=0.4.2"
syn = "=1.0.58"
