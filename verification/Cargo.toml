[package]
name = "pm_win_shutdown"
version = "0.1.0"
edition = "2021"
publish = false

[dependencies]
chrono = "0.4"
windows = { version = "0.61", features = ["Win32_Foundation", "Win32_Security", "Win32_System_Registry", "Win32_System_Threading", "Win32_UI_WindowsAndMessaging", "Win32_Graphics_Gdi", "Win32_System_LibraryLoader", "Win32_System_Shutdown"] }
