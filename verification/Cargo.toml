[package]
name = "codex_plus_manager_native"
version = "0.1.0"
edition = "2021"
publish = false

[dependencies]
serde = { version = "1", features = ["derive"] }
serde_json = "1"
thiserror = "2"
eframe = { version = "*", default-features = false }
egui_extras = { version = "*", default-features = false }
tray-icon = { version = "*", default-features = false }
