[package]
name = "winpc"
version = "0.1.0"
edition = "2021"
publish = false

[dependencies]
argon2 = "=0.5.3"
axum = "=0.8.9"
base64 = "=0.22.1"
chrono = { version = "=0.4.45", features = ["serde"] }
png = "=0.17.16"
rand_core = { version = "=0.6.4", features = ["getrandom"] }
serde = { version = "=1.0.229", features = ["derive"] }
serde_json = "=1.0.154"
thiserror = "=2.0.21"
tokio = { version = "=1.54.1", features = ["full"] }
tracing = "=0.1.44"
tracing-subscriber = { version = "=0.3.23", features = ["env-filter"] }
uuid = { version = "=1.29.0", features = ["v4"] }
windows = { version = "=0.59.0", features = ["Win32_Foundation", "Win32_Security", "Win32_Security_Cryptography", "Win32_Security_Authorization", "Win32_System_RemoteDesktop", "Win32_System_Threading", "Win32_System_LibraryLoader", "Win32_System_SystemServices", "Win32_Graphics_Gdi", "Win32_UI_WindowsAndMessaging"] }
windows-service = "=0.8.1"
