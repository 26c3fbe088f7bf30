[package]
name = "fee_units"
version = "0.1.0"
edition = "2021"
publish = false

[dependencies]
arbitrary = "1"
serde = { version = "1", features = ["derive"] }
