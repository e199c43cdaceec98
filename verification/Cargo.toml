[package]
name = "service_pre"
version = "0.1.0"
edition = "2021"
publish = false

[dependencies]
futures = "=0.1.31"
futures-cpupool = "=0.1.8"
log = "=0.4.35"
parking_lot = "=0.13.0"
mio = "=0.6.23"
