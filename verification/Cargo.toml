[package]
name = "hermes_clicker"
version = "0.1.0"
edition = "2021"
publish = false

[dependencies]
fastrand = "=2.5.0"
global-hotkey = "=0.6.4"
eframe = { version = "=0.31.1", default-features = false, features = ["default_fonts", "glow", "x11"] }
image = { version = "=0.25.10", default-features = false, features = ["png"] }
lucide-icons = "=1.66.0"
single-instance = "=0.3.3"
windows = { version = "=0.58.0", features = ["Win32_Foundation", "Win32_Graphics_Gdi", "Win32_UI_Input_KeyboardAndMouse", "Win32_UI_WindowsAndMessaging"] }
