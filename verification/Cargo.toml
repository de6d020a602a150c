[package]
name = "frame_sampler"
version = "0.1.0"
edition = "2021"
publish = false

[dependencies]
anyhow = "1"
chrono = "0.4"
clap = { version = "4", features = ["derive"] }
ffmpeg-next = "*"
image = { version = "0.25", default-features = false, features = ["jpeg"] }
md5 = "*"
rusqlite = { version = "*", features = ["bundled"] }
serde = { version = "1", features = ["derive"] }
toml = "*"
