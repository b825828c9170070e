[package]
name = "bfi"
version = "0.1.0"
edition = "2021"
publish = false

[dependencies]
windows = { version = "=0.58.0", features = [
    "Wdk_Graphics_Direct3D",
    "Win32_Foundation",
    "Win32_Graphics_Gdi",
    "Win32_System_LibraryLoader",
    "Win32_System_Threading",
    "Win32_UI_WindowsAndMessaging",
] }
