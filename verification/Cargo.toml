[package]
name = "stracer"
version = "0.1.0"
edition = "2021"
publish = false

[dependencies]
byteorder = "1"
libc = "0.2"
nix = { version = "0.29", features = ["ptrace", "process", "signal"] }
structopt = "0.3"
