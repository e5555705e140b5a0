[package]
name = "identifiers"
version = "0.1.0"
edition = "2021"
publish = false

[dependencies]
uuid = { version = "1", features = ["v4"] }
fluent-uri = "*"
proc-macro2 = "1"
quote = "1"
syn = { version = "2", features = ["full"] }
