[package]
name = "builder"
version = "0.1.0"
edition = "2021"
publish = false

[dependencies]
quote = { version = "=1.0.47", default-features = false }
syn = { version = "=2.0.119", default-features = false, features = ["clone-impls", "derive", "full", "parsing", "printing"] }
