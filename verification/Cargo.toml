[package]
name = "granulator"
version = "0.1.0"
edition = "2021"
publish = false

[dependencies]
libm = "0.2"
rand = { version = "0.8", default-features = false, features = ["small_rng"] }
