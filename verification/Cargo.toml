[package]
name = "esdt_nft_marketplace"
version = "0.1.0"
edition = "2021"
publish = false

[dependencies]
multiversx-sc = "*"
multiversx-wegld-swap-sc = "*"
