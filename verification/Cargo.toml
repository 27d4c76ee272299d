[package]
name = "sst_cam"
version = "0.1.0"
edition = "2021"
publish = false

[dependencies]
chrono = { version = "0.4", default-features = false, features = ["std", "clock"] }
once_cell = "1"
parking_lot = "0.12"
serde = { version = "1", features = ["derive"] }
toml = "0.8"
