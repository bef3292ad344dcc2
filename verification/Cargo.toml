[package]
name = "crystal_clear_core"
version = "0.1.0"
edition = "2021"
publish = false

[dependencies]
blake3 = "=1.8.7"
bytesize = "=1.3.3"
chrono = { version = "=0.4.45", features = ["serde"] }
color-eyre = "=0.6.5"
dirs = "=5.0.1"
getrandom = "=0.4.3"
once_cell = "=1.21.4"
rusqlite = { version = "=0.31.0", features = ["bundled"] }
serde = { version = "=1.0.229", features = ["derive"] }
serde_json = "=1.0.154"
thiserror = "=1.0.69"
toml = "=0.8.23"
tracing = "=0.1.44"
tracing-subscriber = { version = "=0.3.23", features = ["env-filter"] }
trash = "=5.2.9"
uniffi = "=0.28.3"
uuid = { version = "=1.29.0", features = ["v4", "serde"] }
walkdir = "=2.5.0"
windows-sys = { version = "=0.61.2", features = ["Win32_Storage_FileSystem"] }

[dev-dependencies]
tempfile = "=3.27.0"
