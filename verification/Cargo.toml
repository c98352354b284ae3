[package]
name = "xsync-core"
version = "0.1.0"
edition = "2021"
publish = false

[dependencies]
blake3 = { version = "1", features = ["pure"] }
shlex = "1"
tempfile = "3"
filetime = "0.2"
libc = "0.2"
crossbeam-channel = "0.5"
thiserror = "1"
