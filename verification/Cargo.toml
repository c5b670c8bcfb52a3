[package]
name = "ide_files"
version = "0.1.0"
edition = "2021"
publish = false

[dependencies]
chrono = "0.4"
clap = "4"
regex = "1"
rusqlite = "*"
serde = { version = "1", features = ["derive"] }
serde_json = "1"
shell-words = "1"
thiserror = "1"
winapi = { version = "0.3", features = ["handleapi", "minwindef", "tlhelp32", "windef", "winuser"] }
x11 = { version = "2", features = ["xlib"] }
