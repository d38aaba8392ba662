[package]
name = "inter_struct"
version = "0.1.0"
edition = "2021"
publish = false

[dependencies]
proc-macro2 = { version = "=1.0.51", default-features = false }
quote = { version = "=1.0.23", default-features = false }
syn = { version = "=1.0.109", default-features = false, features = ["full", "parsing", "printing"] }
