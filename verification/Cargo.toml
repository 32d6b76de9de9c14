[package]
name = "tutor_chat"
version = "0.1.0"
edition = "2021"
publish = false

[dependencies]
email_address = "0.2"
eframe = { version = "0.29", default-features = false, features = ["default_fonts", "glow", "persistence"] }
egui_commonmark = "0.18"
serde = { version = "1", features = ["derive"] }
serde_json = "1"
reqwest = { version = "0.12", default-features = false, features = ["json", "rustls-tls"] }
tokio = { version = "1", features = ["rt-multi-thread"] }
log = "0.4"
dotenvy = "0.15"
