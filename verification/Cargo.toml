[package]
name = "framework_tool_tui"
version = "0.1.0"
edition = "2021"
publish = false

[dependencies]
color-eyre = "=0.6.5"
crossterm = { version = "=0.28.1", features = ["event-stream"] }
dirs = "=6.0.0"
framework_lib = { version = "=0.6.6", default-features = false }
futures = "=0.3.34"
ratatui = "=0.29.0"
serde = { version = "=1.0.229", features = ["derive"] }
smbios-lib = "*"
tokio = { version = "=1.53.2", features = ["macros", "rt-multi-thread", "sync", "time"] }
toml = "=0.8.23"
tui-popup = "=0.6.0"
uzers = "=0.12.2"
