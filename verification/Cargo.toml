[package]
name = "coinswap_js"
version = "0.1.0"
edition = "2021"
publish = false

[dependencies]
bitcoin = "0.32"
bitcoincore-rpc = "0.19"
log = "0.4"
