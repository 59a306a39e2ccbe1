[package]
name = "udmx"
version = "0.1.0"
edition = "2021"
publish = false

[dependencies]
rusb = "0.9"
log = "0.4"
thiserror = "1"
