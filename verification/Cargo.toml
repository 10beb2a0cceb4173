[package]
name = "hyperv"
version = "0.1.0"
edition = "2021"
publish = false

[dependencies]
windows = { version = "=0.58.0", features = ["Win32_System_Wmi", "Win32_System_Com", "Win32_System_Ole", "Win32_System_Variant", "Win32_System_Rpc", "Win32_Foundation"] }
windows-core = "=0.58.0"
