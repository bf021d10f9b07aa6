[package]
name = "perp_engine"
version = "0.1.0"
edition = "2021"
publish = false

[dependencies]
soroban-sdk = "=23.5.3"
soroban-fixed-point-math = "=1.4.1"
sep-40-oracle = "=1.3.0"
stellar-access = "=0.6.0"
stellar-macros = "=0.6.0"
