[package]
name = "transfer_hook_interface"
version = "0.1.0"
edition = "2021"
publish = false

[dependencies]
solana-program = "1.14"
spl-type-length-value = "=0.1.0"
spl-tlv-account-resolution = "=0.0.1"
