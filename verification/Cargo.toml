[package]
name = "zmq_stream"
version = "0.1.0"
edition = "2021"
publish = false

[dependencies]
async-io = "1"
futures-core = "0.3"
futures-sink = "0.3"
zmq = "0.10"
