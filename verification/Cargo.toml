[package]
name = "gemini_stream"
version = "0.1.0"
edition = "2021"
publish = false

[dependencies]
ark-ff = "0.4"
ark-std = "0.4"

[dev-dependencies]
ark-test-curves = { version = "0.4", features = ["bls12_381_curve"] }
