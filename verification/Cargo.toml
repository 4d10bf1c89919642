[package]
name = "osm_ingest"
version = "0.1.0"
edition = "2021"
publish = false

[dependencies]
rand = "=0.8.8"
reqwest = "=0.11.27"
sdl2 = { version = "0.36", features = ["gfx"] }
serde_json = "=1.0.154"
tokio = { version = "=1.54.1", features = ["full"] }
xml-rs = "=0.8.29"
