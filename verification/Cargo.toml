[package]
name = "peggy"
version = "0.1.0"
edition = "2021"
publish = false

[dependencies]
fvm_shared = "*"
fvm_ipld_encoding = "*"
cid = "*"
blake2b_simd = "*"
libsecp256k1 = "*"
bls-signatures = "*"
serde_json = "*"
