[package]
name = "copy_prog"
version = "1.0.0"
edition = "2021"
publish = false

[dependencies]
clap = { version = "4", features = ["derive"] }
dirs = "*"
serde = { version = "1", features = ["derive"] }
serde_json = "1"
walkdir = "2"
windows = { version = "*", features = ["Win32_Foundation", "Win32_System_Console", "Win32_Globalization"] }
