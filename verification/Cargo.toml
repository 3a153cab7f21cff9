[package]
name = "silent_backup"
version = "0.1.0"
edition = "2021"
publish = false

[dependencies]
anyhow = "1"
chrono = "0.4"
config = { version = "*", default-features = false, features = ["ini"] }
fs_extra = "1"
log = "0.4"
serde = { version = "1", features = ["derive"] }
serde_json = "1"
simplelog = "0.12"
tokio = { version = "1", features = ["fs", "io-util", "macros", "rt-multi-thread", "time"] }
winapi = { version = "0.3", features = ["errhandlingapi", "synchapi", "wincon", "winerror", "winuser"] }
winreg = "*"
