[package]
name = "crosvm_macos"
version = "0.1.0"
edition = "2021"
publish = false

[dependencies]
anyhow = "1"
argh = "0.1"
bitflags = "2"
fnv = "1"
futures = "0.3"
libc = "0.2"
mesa3d_util = "*"
protobuf = "3"
serde = { version = "1", features = ["derive"] }
serde_json = "1"
slab = "0.4"
smallvec = "1"
thiserror = "1"
