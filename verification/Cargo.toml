[package]
name = "priority_actor"
version = "0.1.0"
edition = "2021"
publish = false

[dependencies]
async-trait = "=0.1.92"
proc-macro2 = "=1.0.107"
syn = { version = "=1.0.109", features = ["full"] }
tokio = { version = "=1.54.1", features = ["sync", "rt", "time", "macros"] }
