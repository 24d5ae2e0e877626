[package]
name = "headlines"
version = "0.1.0"
edition = "2021"
publish = false

[dependencies]
serde_json = "*"
url = "*"
ureq = { version = "*", default-features = false }
confy = "*"
serde = { version = "*", features = ["derive"] }
eframe = { version = "*", default-features = false, features = ["glow", "x11", "default_fonts"] }
tracing = "*"
tracing-subscriber = { version = "*", default-features = false, features = ["fmt", "ansi"] }
colour = "*"
dotenv = "*"
thiserror = "*"
