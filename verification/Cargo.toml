[package]
name = "ripclip"
version = "0.1.0"
edition = "2021"
publish = false

[dependencies]
dirs = "*"
log = "*"
pretty_env_logger = "*"
winapi = { version = "0.3", features = ["winuser", "errhandlingapi", "winbase", "libloaderapi", "shellapi", "windowsx", "windef", "minwindef"] }
