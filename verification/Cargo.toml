[package]
name = "binkybox"
version = "0.1.0"
edition = "2021"
publish = false

[dependencies]
windows-sys = { version = "0.59", features = ["Win32_Foundation", "Win32_UI_Input_KeyboardAndMouse", "Win32_UI_WindowsAndMessaging", "Win32_UI_Controls", "Win32_Graphics_Dwm", "Win32_Graphics_Gdi", "Win32_System_Console", "Win32_System_Diagnostics_Debug"] }
winvd = "*"
tray-item = "*"
tokio = { version = "1", features = ["rt-multi-thread", "macros"] }
