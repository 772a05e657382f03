[package]
name = "simnation"
version = "0.1.0"
edition = "2021"
publish = false

[dependencies]
chrono = "=0.4.45"
global-hotkey = "=0.9.0"
serde_json = "=1.0.154"
sysinfo = "=0.33.1"
winapi = { version = "=0.3.9", features = ["memoryapi", "handleapi", "errhandlingapi", "winnt"] }
