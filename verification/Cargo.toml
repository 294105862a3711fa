[package]
name = "mpl_bubblegum"
version = "0.1.0"
edition = "2021"
publish = false

[dependencies]
bincode = "1.3"
borsh = "0.10"
rustler = "0.29"
solana-program = "1.18"
solana-sdk = "1.18"
spl-account-compression = "0.3"
spl-noop = "0.2"
thiserror = "1.0"
tokio = { version = "1", features = ["rt", "rt-multi-thread"] }
