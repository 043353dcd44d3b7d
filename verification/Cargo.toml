[package]
name = "gz_transport"
version = "0.1.0"
edition = "2021"
publish = false

[dependencies]
uuid = { version = "1", features = ["v4"] }
hostname = "0.4"
whoami = "1"
tokio = { version = "1", features = ["full"] }
prost = "0.13"
socket2 = { version = "0.5", features = ["all"] }
parking_lot = "0.12"
thiserror = "2"
tracing = "0.1"
zmq = "0.10"
bytes = "1"
