[package]
name = "system_proxy"
version = "0.1.0"
edition = "2021"
publish = false

[dependencies]
arc-swap = "1"
base64 = "0.22"
env_logger = "0.11"
http = "1"
log = "0.4"
percent-encoding = "2"
reqwest = "0.12"
system-configuration = "0.6"
tokio = { version = "1", features = ["macros", "rt-multi-thread", "time"] }
url = "2"
winreg = "*"
