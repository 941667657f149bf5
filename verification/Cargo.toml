[package]
name = "pass3d_bridge"
version = "0.1.0"
edition = "2021"
publish = false

[dependencies]
parity-scale-codec = { version = "*", features = ["derive"] }
scale-info = { version = "*", features = ["derive"] }
sp-arithmetic = "*"
sp-core = "*"
sp-crypto-hashing = "*"
sp-io = "*"
sp-runtime = "*"
sp-trie = "*"
hash256-std-hasher = "*"
anyhow = "*"
async-trait = "*"
log = "*"
serde = { version = "*", features = ["derive"] }
structopt = "*"
strum = { version = "*", features = ["derive"] }
