[package]
name = "foundry"
version = "0.1.0"
edition = "2021"
publish = false

[dependencies]
bincode = "1.3"
serde = "1"
rkyv = { version = "0.7", features = ["validation"] }
syn = { version = "2", features = ["full"] }
quote = "1"
proc-macro2 = "1"
