[package]
name = "rp_spinlockmutex"
version = "0.1.0"
edition = "2021"
publish = false

[dependencies]
rp2040-hal = "*"
