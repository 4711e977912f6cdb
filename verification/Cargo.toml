[package]
name = "moho_ui"
version = "0.1.0"
edition = "2021"
publish = false

[dependencies]
ini = "=1.3.0"
egui = "=0.37.0"
rand = "0.8"
