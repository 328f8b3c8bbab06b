[package]
name = "foxmarks"
version = "0.1.0"
edition = "2021"
publish = false

[dependencies]
directories = "*"
rusqlite = { version = "*", default-features = false, features = ["bundled", "backup"] }
