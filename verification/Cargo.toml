[package]
name = "opener"
version = "0.5.2"
edition = "2021"
publish = false

[dependencies]
bstr = "=1.13.1"
dbus = { version = "=0.9.12", features = ["vendored"] }
normpath = "=1.5.2"
structopt = "=0.3.26"
url = "=2.5.8"
windows = { version = "0.48", features = ["Win32_Foundation", "Win32_System_Com", "Win32_UI_Shell", "Win32_UI_Shell_Common", "Win32_UI_WindowsAndMessaging"] }
