[package]
name = "service_gen"
version = "0.1.0"
edition = "2021"
publish = false

[dependencies]
shell-words = "=1.1.1"
serde = { version = "=1.0.229", features = ["derive"] }
serde_json = "=1.0.154"
chrono = "=0.4.45"
anyhow = "=1.0.104"
tokio = { version = "=1.54.1", features = ["fs", "io-util", "rt"] }
walkdir = "=2.5.0"
zip = { version = "=0.6.6", default-features = false, features = ["deflate"] }
tracing = "=0.1.44"
tracing-subscriber = { version = "=0.3.23", features = ["env-filter"] }
windows-service = "=0.7.0"
winapi = { version = "=0.3.9", features = ["winuser", "libloaderapi", "minwindef", "windef"] }
windows = { version = "=0.58.0", features = ["Win32_System_Services", "Win32_Security"] }
iced = { version = "=0.14.0", default-features = false, features = ["tiny-skia", "x11", "thread-pool"] }
rfd = { version = "=0.15.4", default-features = false, features = ["xdg-portal", "tokio"] }
image = { version = "=0.25.10", default-features = false, features = ["ico"] }
