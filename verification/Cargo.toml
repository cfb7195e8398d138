[package]
name = "tps6699x"
version = "0.1.0"
edition = "2021"
publish = false

[dependencies]
device-driver = { version = "=1.0.9", default-features = false }
embassy-sync = "=0.6.2"
embassy-time = "=0.4.0"
embedded-hal = "=1.0.0"
embedded-hal-async = "=1.0.0"
