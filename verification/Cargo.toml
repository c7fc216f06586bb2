[package]
name = "argos_gui"
version = "0.1.0"
edition = "2021"
publish = false

[dependencies]
argos-arpa = "0.3.5"
rayon = "1"
log = "0.4"
env_logger = { version = "0.11", default-features = false }
tokio = { version = "1", features = ["rt-multi-thread", "sync"] }
egui = { version = "0.32", default-features = false }
egui_extras = { version = "0.32", default-features = false }
rfd = { version = "0.15", default-features = false, features = ["xdg-portal", "tokio"] }
