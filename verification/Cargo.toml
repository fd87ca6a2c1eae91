[package]
name = "gol"
version = "0.1.0"
edition = "2021"
publish = false

[dependencies]
egui = "0.21"
egui-miniquad = "0.14"
miniquad = "0.3"
serde = { version = "1", features = ["derive"] }
serde_json = "1"
