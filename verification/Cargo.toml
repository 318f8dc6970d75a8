[package]
name = "mail_slot"
version = "0.1.0"
edition = "2021"
publish = false

[dependencies]
mach = "0.3"
winapi = { version = "0.3", features = ["winbase", "handleapi", "winnt"] }
