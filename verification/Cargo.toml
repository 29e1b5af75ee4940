[package]
name = "rust_rpc"
version = "0.1.0"
edition = "2021"
publish = false

[dependencies]
auto-launch = "*"
discord-rich-presence = "*"
discord-sdk = "*"
dotenv = "*"
log = "*"
once_cell = "*"
rand = "*"
ringbuffer = "*"
serde = { version = "*", features = ["derive"] }
serde_json = "*"
tao = "*"
tokio = { version = "*", features = ["full"] }
tokio-util = "*"
tracing = "*"
tracing-subscriber = "*"
tray-icon = "*"
winreg = "*"
