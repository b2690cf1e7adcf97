[package]
name = "cyan_fleet_control"
version = "0.1.0"
edition = "2021"
publish = false

[dependencies]
crossbeam-queue = "0.3"
spacedust = "*"
pollster = "0.3"
tokio = { version = "1", features = ["rt-multi-thread", "macros", "time"] }
eframe = { version = "0.21", default-features = false, features = ["glow", "default_fonts", "persistence"] }
egui = "0.21"
serde = { version = "1", features = ["derive"] }
