[package]
name = "indicator_engine"
version = "0.1.0"
edition = "2021"
publish = false

[dependencies]
ta = "0.5"

[dev-dependencies]
approx = "0.5"
