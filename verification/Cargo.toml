[package]
name = "update_loader"
version = "0.1.0"
edition = "2021"
publish = false

[dependencies]
pgp = "=0.21.0"
anyhow = "1"
reqwest = { version = "=0.13.5", default-features = false, features = ["blocking"] }
windows-sys = { version = "=0.61.2", features = ["Win32_Foundation", "Win32_Graphics_Gdi", "Win32_System_LibraryLoader", "Win32_UI_Controls", "Win32_UI_WindowsAndMessaging"] }

[dev-dependencies]
rand = "0.8"
