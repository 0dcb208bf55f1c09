[package]
name = "cql_session"
version = "0.1.0"
edition = "2021"
publish = false

[dependencies]
cdrs = "*"
futures = "*"
tokio-core = "*"
