[package]
name = "surreal_query_builder"
version = "0.1.0"
edition = "2021"
publish = false

[dependencies]
surrealdb = { version = "1", default-features = false }
chrono = { version = "0.4" }
