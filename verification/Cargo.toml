[package]
name = "dual_wire"
version = "0.1.0"
edition = "2021"
publish = false

[dependencies]
embedded-io-async = "0.6"
embedded-hal-async = "1.0"
embassy-futures = "0.1"
