[package]
name = "bargozin"
version = "0.1.0"
edition = "2021"
publish = false

[dependencies]
url = "=2.5.8"
serde = { version = "=1.0.229", features = ["derive"] }
anyhow = "=1.0.104"
lazy_static = "=1.5.1"
tokio = { version = "=1.54.1", features = ["rt-multi-thread", "macros", "time"] }
futures-util = "=0.3.34"
reqwest = { version = "=0.11.27", default-features = false, features = ["rustls-tls", "stream", "socks"] }
trust-dns-resolver = { version = "=0.23.2", features = ["tokio-runtime"] }
ureq = { version = "=2.12.1", default-features = false }
windows-sys = { version = "=0.59.0", features = ["Win32_Foundation", "Win32_NetworkManagement_IpHelper", "Win32_NetworkManagement_Ndis", "Win32_Networking_WinSock", "Win32_System_Threading", "Win32_UI_Shell", "Win32_UI_WindowsAndMessaging"] }
