[package]
name = "importer_service"
version = "0.1.0"
edition = "2021"
publish = false

[dependencies]
chrono = "0.4"
chrono-tz = "0.10"
rust_decimal = "1"
sea-orm = { version = "1", default-features = false, features = ["macros", "with-chrono", "with-json", "with-rust_decimal"] }
serde = { version = "1", features = ["derive"] }
serde_json = "1"
