[package]
name = "serde_tuplex"
version = "0.1.0"
edition = "2021"
publish = false

[dependencies]
proc-macro2 = "1"
quote = "1"
serde = "1"
syn = "2"

[dev-dependencies]
serde_json = "1"
