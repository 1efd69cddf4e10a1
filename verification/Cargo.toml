[package]
name = "wxparse"
version = "0.1.0"
edition = "2021"
publish = false

[dependencies]
chrono = { version = "*", default-features = false, features = ["std"] }
regex = "*"
serde = { version = "*", features = ["derive"] }
serde_derive = "*"
serde_json = "*"
slog = "*"
reqwest = { version = "*", default-features = false, features = ["blocking"] }
