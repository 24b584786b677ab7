[package]
name = "gtk_rust_app"
version = "0.1.0"
edition = "2021"
publish = false

[dependencies]
serde = { version = "1", features = ["derive"] }
toml = "0.5"
sha2 = "0.10"

[dev-dependencies]
regex = "1"
