[package]
name = "luna_rs"
version = "0.1.0"
edition = "2021"
publish = false

[dependencies]
nix = { version = "=0.31.3", features = ["socket", "uio", "net", "time", "mman", "resource", "signal"] }
caps = "=0.5.6"
libc = "=0.2.190"
clap = { version = "=4.6.7", features = ["derive"] }
