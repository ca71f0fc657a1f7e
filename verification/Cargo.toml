[package]
name = "xclock"
version = "0.1.0"
edition = "2021"
publish = false

[dependencies]
chrono = "0.4"
ctrlc = "3"
winapi = { version = "0.3", features = ["winuser", "wingdi", "libloaderapi", "sysinfoapi", "debugapi", "errhandlingapi", "windef", "minwindef"] }
