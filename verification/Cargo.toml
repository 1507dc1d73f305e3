[package]
name = "getmacaddress"
version = "0.1.0"
edition = "2021"
publish = false

[dependencies]
windows = { version = "=0.62.2", features = ["Win32_Foundation", "Win32_NetworkManagement_IpHelper", "Win32_NetworkManagement_Ndis", "Win32_Networking_WinSock", "Win32_System_Console"] }
arboard = { version = "=3.6.1", default-features = false }
colored = "=3.1.1"
hostname = "=0.4.2"
