[package]
name = "session_pool"
version = "0.1.0"
edition = "2021"
publish = false

[dependencies]
async-trait = "*"
neo4rs = "*"
rand = "*"
