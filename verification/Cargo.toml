[package]
name = "windows-settings"
version = "0.1.0"
edition = "2021"
publish = false

[dependencies]
semver = "=1.0.28"
eframe = { version = "=0.37.0", default-features = false, features = ["glow", "x11", "default_fonts"] }
egui_extras = { version = "=0.37.0", default-features = false, features = ["image"] }
self_update = { version = "=1.3.3", default-features = false, features = ["ureq", "github", "native-tls"] }
self-replace = "=1.5.1"
ureq = { version = "=3.5.1", features = ["native-tls"] }
