[package]
name = "whyyouforgetme"
version = "0.1.0"
edition = "2021"
publish = false

[dependencies]
sdl2 = { version = "0.37", features = ["image", "ttf"] }
serde = { version = "1", features = ["derive"] }
serde_json = "1"
toml = "0.8"
