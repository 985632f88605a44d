[package]
name = "display_tuner"
version = "0.1.0"
edition = "2021"
publish = false

[dependencies]
anyhow = "=1.0.104"
clap = { version = "=4.6.7", features = ["derive"] }
windows = { version = "=0.58.0", features = ["Win32_Devices_Display", "Win32_Foundation", "Win32_Graphics_Gdi"] }
