[package]
name = "msquic"
version = "0.1.0"
edition = "2021"
publish = false

[dependencies]
c-types = "*"
ctor = "0.2"
libc = "0.2"
serde = { version = "1", features = ["derive"] }
socket2 = "0.5"
