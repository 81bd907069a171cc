[package]
name = "thinkcharge"
version = "0.1.0"
edition = "2021"
publish = false

[dependencies]
dirs = "=6.0.0"
serde = { version = "=1.0.229", features = ["derive"] }
serde_json = "=1.0.154"
starship-battery = "=0.10.3"
winreg = "=0.55.0"
windows = { version = "0.61", features = ["Win32_Foundation", "Win32_Security", "Win32_Storage_FileSystem", "Win32_System_IO", "Win32_System_Services", "Win32_UI_WindowsAndMessaging", "Win32_Graphics_Dwm"] }
