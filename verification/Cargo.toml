[package]
name = "arcrelay-print"
version = "0.1.0"
edition = "2021"
publish = false

[dependencies]
async-trait = "=0.1.92"
axum = "=0.8.9"
http-body-util = "=0.1.5"
image = { version = "=0.25.10", default-features = false, features = ["png", "bmp", "jpeg"] }
prost = "=0.13.5"
quinn = "=0.11.12"
sea-orm = { version = "=1.1.20", default-features = false, features = ["sqlx-sqlite", "runtime-tokio-rustls"] }
serde = { version = "=1.0.229", features = ["derive"] }
serde_json = "=1.0.154"
sha2 = "=0.11.1"
tempfile = "=3.27.0"
thiserror = "=2.0.21"
tokio = { version = "=1.54.1", features = ["full"] }
tracing = "=0.1.44"
ts-rs = "=11.1.0"
uuid = { version = "=1.29.0", features = ["v4"] }
windows = { version = "=0.61.3", features = ["Data_Pdf", "Foundation", "Storage", "Storage_Streams", "Win32_Foundation", "Win32_Graphics_Gdi", "Win32_Graphics_Printing", "Win32_Storage_Xps", "Win32_System_WinRT"] }
