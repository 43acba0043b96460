[package]
name = "net"
version = "0.1.0"
edition = "2021"
publish = false

[dependencies]
ahash = "=0.8.12"
arrayvec = "=0.7.8"
etherparse = "=0.21.0"
serde = { version = "=1.0.229", features = ["derive"] }
thiserror = "=2.0.21"
default-net = "*"
procfs = { version = "*", default-features = false }
