[package]
name = "hwdash"
version = "0.1.0"
edition = "2021"
publish = false

[dependencies]
queues = "*"
sysinfo = "*"
nvml-wrapper = "*"
