[package]
name = "rapid_reporter"
version = "0.1.0"
edition = "2021"
publish = false

[dependencies]
chrono = "=0.4.45"
image = { version = "=0.25.10", default-features = false, features = ["png"] }
arboard = "=3.7.0"
dirs = "=7.0.0"
serde = { version = "=1.0.229", features = ["derive"] }
tauri = { version = "=2.12.5", default-features = false }
windows-sys = { version = "=0.61.2", features = ["Win32_Foundation", "Win32_System_DataExchange"] }
