[package]
name = "legion_control"
version = "0.2.0"
edition = "2021"
publish = false

[dependencies]
env_logger = "=0.11.11"
hidapi = "=2.6.7"
log = "=0.4.34"
serde = { version = "=1.0.229", features = ["derive"] }
serde_json = "=1.0.154"
windows = { version = "=0.58.0", features = ["Win32_Foundation", "Win32_Security", "Win32_Storage_FileSystem", "Win32_System_IO"] }
wmi = "=0.13.4"
