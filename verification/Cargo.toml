[package]
name = "tolstoy"
version = "0.1.0"
edition = "2021"
publish = false

[dependencies]
rusqlite = { version = "*", features = ["bundled"] }

[dev-dependencies]
uuid = { version = "*", features = ["v4"] }
