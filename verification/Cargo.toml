[package]
name = "cairo_core"
version = "0.1.0"
edition = "2021"
publish = false

[dependencies]
num-bigint = "=0.4.8"
num-integer = "=0.1.47"
num-traits = "=0.2.19"
bincode = { version = "=2.0.1", default-features = false }
thiserror-no-std = "=2.0.2"
starknet-types-core = { version = "=0.1.7", default-features = false }
arbitrary = { version = "=1.5.0", features = ["derive"] }
