[package]
name = "github_status"
version = "0.1.0"
edition = "2021"
publish = false

[dependencies]
itertools = "0.11"
serde = { version = "1", features = ["derive"] }
serde_json = "1"
ehttp = "0.3"
egui = "0.22"
egui_extras = "0.22"
eframe = { version = "0.22", default-features = false, features = ["default_fonts", "glow", "persistence"] }
poll-promise = "0.3"
