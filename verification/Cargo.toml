[package]
name = "moving_game"
version = "0.1.0"
edition = "2021"
publish = false

[dependencies]
bytemuck = { version = "1", features = ["derive"] }
mojo-rust-sdk = { version = "0.1.1", default-features = false }
solana-keypair = "2.2"
