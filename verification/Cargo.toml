[package]
name = "fxr_reloader"
version = "0.1.0"
edition = "2021"
publish = false

[dependencies]
pelite = "=0.10.0"
windows = { version = "=0.62.2", features = ["Win32_Foundation", "Win32_System_LibraryLoader"] }
dll-syringe = { version = "=0.18.2", features = ["payload-utils"] }
serde = { version = "=1.0.229", features = ["derive"] }
thiserror = "=2.0.21"
clap = { version = "=4.6.7", features = ["derive"] }
sysinfo = "=0.39.6"
eframe = { version = "=0.37.0", default-features = false, features = ["glow"] }
rfd = "=0.17.2"
