[package]
name = "fionread"
version = "0.1.0"
edition = "2021"
publish = false

[dependencies]
nix = { version = "*", default-features = false, features = ["ioctl"] }
windows-sys = { version = "*", features = ["Win32_Foundation", "Win32_Networking_WinSock"] }
