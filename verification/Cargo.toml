[package]
name = "catnip"
version = "0.1.0"
edition = "2021"
publish = false

[dependencies]
futures = "=0.3.34"
futures-intrusive = "=0.3.1"
hashbrown = "=0.17.1"
