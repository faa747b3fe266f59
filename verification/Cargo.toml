[package]
name = "vizprob"
version = "0.1.0"
edition = "2021"
publish = false

[dependencies]
probability = "=0.20.3"
itertools-num = "=0.1.3"
serde = { version = "=1.0.229", features = ["derive"] }
egui = { version = "=0.20.1", default-features = false }
eframe = { version = "=0.20.1", default-features = false, features = ["glow", "persistence"] }
