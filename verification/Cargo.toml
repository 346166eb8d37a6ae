[package]
name = "diagram_editor"
version = "0.1.0"
edition = "2021"
publish = false

[dependencies]
ggez = { version = "0.9", default-features = false }
lyon_path = "1.0"
lyon_tessellation = "1.0"
serde = { version = "1", features = ["derive"] }
toml = "0.8"
