[package]
name = "rider"
version = "0.1.0"
edition = "2021"
publish = false

[dependencies]
dirs = "=7.0.0"
serde = { version = "=1.0.229", features = ["derive"] }
serde_json = "=1.0.154"
sdl2 = { version = "=0.38.0", features = ["ttf", "image"] }

[dev-dependencies]
plex = "=0.3.1"
