[package]
name = "fancy_surreal"
version = "0.1.0"
edition = "2021"
publish = false

[dependencies]
serde = { version = "*", features = ["derive"] }
serde_json = "*"
futures = "*"
surrealdb = { version = "*", default-features = false, features = ["protocol-ws"] }
