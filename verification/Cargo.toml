[package]
name = "keyboard_heatmap"
version = "0.1.0"
edition = "2021"
publish = false

[dependencies]
chrono = { version = "0.4", default-features = false, features = ["clock"] }
egui = "0.20"
image = { version = "0.24", default-features = false, features = ["png"] }
native-dialog = "0.6"
rdev = "0.5"
serde = { version = "1", features = ["derive"] }
