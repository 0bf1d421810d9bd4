[package]
name = "compio-driver"
version = "0.1.0"
edition = "2021"
publish = false

[dependencies]
libc = "0.2"
polling = "3"
socket2 = "0.5"
windows-sys = { version = "0.48", features = ["Win32_Foundation", "Win32_Networking_WinSock", "Win32_System_IO"] }
