[package]
name = "polkadot_logic"
version = "0.1.0"
edition = "2021"
publish = false

[dependencies]
sp-arithmetic = "=2.0.1"
parity-scale-codec = { version = "3", features = ["derive"] }
