[package]
name = "metayoinker"
version = "0.1.0"
edition = "2021"
publish = false

[dependencies]
dmi = "*"
uuid = { version = "*", features = ["v4"] }
eframe = { version = "*", default-features = false, features = ["glow", "default_fonts", "x11"] }
egui = "*"
egui_extras = { version = "*", default-features = false }
egui-phosphor = "*"
egui-toast = "*"
image = { version = "*", default-features = false, features = ["png"] }
poll-promise = "*"
rfd = { version = "*", default-features = false, features = ["xdg-portal", "tokio"] }
