[package]
name = "hoi_mod_editor"
version = "0.1.0"
edition = "2021"
publish = false

[dependencies]
tauri = { version = "2", default-features = false, features = ["wry"] }
windows = { version = "*", features = ["Win32_Foundation", "Win32_Graphics_Dwm"] }
