[package]
name = "xbattery"
version = "0.1.0"
edition = "2021"
publish = false

[dependencies]
ctrlc = "3"
serde = { version = "1", features = ["derive"] }
windows = { version = "0.61", features = ["Win32_Foundation", "Win32_Security", "Win32_System_Threading", "Win32_System_Console", "Win32_System_Diagnostics_ToolHelp", "Win32_System_Com", "Win32_UI_Shell", "Win32_UI_WindowsAndMessaging"] }
