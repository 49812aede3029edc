[package]
name = "subquery_deploy"
version = "0.1.0"
edition = "2021"
publish = false

[dependencies]
color-eyre = "0.6"
tokio = { version = "1", features = ["rt-multi-thread", "macros", "time"] }
