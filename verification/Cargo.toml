[package]
name = "capture_core"
version = "0.1.0"
edition = "2021"
publish = false

[dependencies]
base64 = "0.22"
turbojpeg = "*"
serde = { version = "1", features = ["derive"] }
tauri = { version = "2", default-features = false }
wasapi = "*"
windows = { version = "*", features = ["Win32_Foundation", "Win32_Graphics_Gdi", "Win32_Graphics_Dwm", "Win32_UI_WindowsAndMessaging", "Win32_Media_Audio", "Win32_System_Com", "Win32_System_Threading", "Win32_Security"] }
windows-capture = "*"
windows-core = "*"
