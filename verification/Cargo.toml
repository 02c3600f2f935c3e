[package]
name = "logwidget"
version = "0.1.0"
edition = "2021"
publish = false

[dependencies]
build-time = "=0.1.3"
eframe = { version = "=0.24.1", default-features = false, features = ["default_fonts", "glow", "x11"] }
egui = "=0.24.1"
futures = "=0.3.34"
log = "=0.4.34"
rfd = { version = "0.14", default-features = false, features = ["xdg-portal", "async-std"] }
simplelog = "=0.12.2"
wasm-bindgen-futures = "=0.4.79"
