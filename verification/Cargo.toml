[package]
name = "osu_beatmap"
version = "0.1.0"
edition = "2021"

[dependencies]
libosu = { version = "=0.0.30", features = ["serde"] }
serde_json = "=1.0.151"
