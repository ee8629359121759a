[package]
name = "builder_derive"
version = "0.1.0"
edition = "2021"
publish = false

[dependencies]
syn = { version = "2", features = ["full", "extra-traits"] }
