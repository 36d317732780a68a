[package]
name = "egui_sdl3_bridge"
version = "0.1.0"
edition = "2021"
publish = false

[dependencies]
egui = "*"
sdl3 = "*"
