[package]
name = "sinc"
version = "0.1.0"
edition = "2021"
publish = false

[dependencies]
anyhow = "1"
crossterm = "*"
dirs = "*"
fs_extra = "1"
os_info = "3"
pathsearch = "*"
serde = { version = "1", features = ["derive"] }
thiserror = "*"
toml = "*"
windows-sys = { version = "*", features = ["Win32_UI_Shell"] }
