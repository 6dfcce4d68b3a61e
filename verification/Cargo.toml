[package]
name = "litcher"
version = "0.1.0"
edition = "2021"
publish = false

[dependencies]
anyhow = "1"
hudhook = "0.8"
imgui = "0.12"
lazy-re = "0.2"
log = "0.4"
memory-rs = "0.2.6"
windows-sys = { version = "0.52", features = ["Win32_Foundation", "Win32_System_LibraryLoader", "Win32_System_SystemServices", "Win32_UI_Input_KeyboardAndMouse", "Win32_UI_WindowsAndMessaging"] }
