[package]
name = "gaia"
version = "0.1.0"
edition = "2021"
publish = false

[dependencies]
serde_json = "=1.0.154"
serde = { version = "=1.0.229", features = ["derive"] }
zip = { version = "=0.6.6", default-features = false, features = ["deflate"] }
iced = { version = "0.12", default-features = false }
iced_aw = { version = "0.9", default-features = false, features = ["drop_down"] }

[dev-dependencies]
regex = "=1.13.1"
