[package]
name = "pq_stark_bench"
version = "0.1.0"
edition = "2021"
publish = false

[dependencies]
serde = { version = "=1.0.229", features = ["derive"] }
serde_json = "=1.0.154"
fips204 = "=0.4.6"
fips205 = "=0.4.1"
ed25519-dalek = { version = "=3.0.0", features = ["rand_core"] }
k256 = { version = "=0.14.0", features = ["ecdsa"] }
fn-dsa = "=0.4.0"
getrandom = { version = "=0.4.3", features = ["sys_rng"] }
rand_core = { version = "=0.6.4", features = ["getrandom"] }
rand_chacha = "=0.3.1"
