[package]
name = "xcommand"
version = "0.1.0"
edition = "2021"
publish = false

[dependencies]
nix = { version = "=0.29.0", features = ["process", "term", "signal", "fs"] }
tokio = { version = "=1.54.1", features = ["rt-multi-thread", "macros", "sync", "io-util", "net"] }
tokio-fd = "=0.3.0"
tokio-stream = { version = "=0.1.19", features = ["io-util"] }
async-stream = "=0.3.6"
futures = "=0.3.34"
libc = "=0.2.191"
eyre = "=0.6.14"
log = "=0.4.34"
