[package]
name = "pad_visuals"
version = "0.1.0"
edition = "2021"
publish = false

[dependencies]
embedded-graphics = "=0.7.1"
midir = "=0.11.1"
midly = "=0.5.3"
palette = "=0.7.7"
push2_display = "=0.2.0"
regex = "=1.13.1"
serde = { version = "=1.0.229", features = ["derive"] }
serde_yaml = "=0.9.34"
