[package]
name = "inapi"
version = "0.1.0"
edition = "2021"
publish = false

[dependencies]
zmq = { version = "*", features = ["vendored"] }
libc = "*"
serde = { version = "*", features = ["derive"] }
serde_json = "*"
