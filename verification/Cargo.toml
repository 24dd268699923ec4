[package]
name = "category_store"
version = "0.1.0"
edition = "2021"
publish = false

[dependencies]
diesel = { version = "2", features = ["postgres"] }
serde = { version = "1", features = ["derive"] }
