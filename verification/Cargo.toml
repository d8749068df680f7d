[package]
name = "dero_miner"
version = "0.1.0"
edition = "2021"
publish = false

[dependencies]
sha3 = "*"
salsa20 = "*"
cdivsufsort = "*"
divsufsort = "*"
hex = "*"
bech32 = "*"
substrate-bn = "*"
serde = { version = "*", features = ["derive"] }
serde_json = "*"
log = "*"
fern = { version = "*", features = ["colored"] }
chrono = "*"
clap = { version = "3", features = ["derive"] }
crossbeam = "*"
ctrlc = "*"
num_cpus = "*"
websocket = { version = "*", default-features = false, features = ["sync", "sync-ssl"] }
