[package]
name = "futures-net"
version = "0.1.0"
edition = "2021"
publish = false

[dependencies]
anyhow = "1"
async-ready = "*"
futures-core = "0.3"
futures-executor = "0.3"
futures-util = { version = "0.3", default-features = false, features = ["std"] }
iovec = "0.1"
libc = "0.2"
proc-macro2 = "1"
quote = "1"
syn = { version = "1", features = ["full"] }
