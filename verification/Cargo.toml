[package]
name = "route_fabric"
version = "0.1.0"
edition = "2021"
publish = false

[dependencies]
time = "*"
zmq = "*"

[dev-dependencies]
fnv = "*"
