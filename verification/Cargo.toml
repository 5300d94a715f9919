[package]
name = "springql-core"
version = "0.1.0"
edition = "2021"
publish = false

[dependencies]
petgraph = { version = "0.6", default-features = false }
chrono = { version = "0.4", default-features = false, features = ["std"] }
