[package]
name = "p2p_handshake_eth"
version = "0.1.0"
edition = "2021"
publish = false

[dependencies]
reth-eth-wire = "*"
reth-ecies = "*"
reth-network-peers = "*"
alloy-rlp = "*"
secp256k1 = { version = "*", features = ["global-context", "rand"] }
rand = "*"
bytes = "*"
tokio = { version = "*", features = ["rt-multi-thread", "macros", "net", "time"] }
futures = "*"
clap = { version = "*", features = ["derive"] }
tracing = "*"
tracing-subscriber = { version = "*", features = ["env-filter"] }
