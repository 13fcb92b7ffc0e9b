[package]
name = "noaxiom"
version = "0.1.0"
edition = "2021"
publish = false

[dependencies]
array-init = "2"
async-task = "4"
bitflags = "2"
lazy_static = "1"
