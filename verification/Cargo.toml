[package]
name = "rust_apo"
version = "0.1.0"
edition = "2021"
publish = false

[dependencies]
once_cell = "=1.21.4"
widestring = "=1.2.1"
windows = { version = "=0.48.0", features = ["implement", "Win32_Foundation", "Win32_Security", "Win32_Media_Audio", "Win32_Media_Audio_Apo", "Win32_System_Com", "Win32_System_LibraryLoader", "Win32_System_Registry", "Win32_System_SystemServices"] }
