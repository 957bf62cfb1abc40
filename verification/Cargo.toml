[package]
name = "gb_core"
version = "0.1.0"
edition = "2021"
publish = false

[dependencies]
anyhow = "=1.0.104"
clap = { version = "=4.6.7", features = ["derive"] }
imgui = { version = "=0.12.0", features = ["tables-api"] }
imgui-sdl3-renderer = "=0.2.0"
imgui-sdl3-support = "=0.13.0"
sdl3 = "=0.14.42"
