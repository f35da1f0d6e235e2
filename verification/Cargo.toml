[package]
name = "catserver"
version = "0.1.0"
edition = "2021"
publish = false

[dependencies]
anyhow = "1"
argh = "0.1"
axum = { version = "0.8", features = ["ws"] }
directories = "6"
futures-util = "0.3"
open = "5"
reqwest = { version = "0.12", default-features = false, features = ["blocking", "stream", "native-tls"] }
serde = { version = "1", features = ["derive"] }
serde_json = "1"
single-instance = "0.3"
tokio = { version = "1", features = ["full"] }
tokio-tungstenite = { version = "0.28", features = ["native-tls"] }
tower-http = { version = "0.6", features = ["fs"] }
tracing = "0.1"
tracing-panic = "0.1"
tracing-subscriber = { version = "0.3", features = ["env-filter"] }
tray-icon = { version = "0.26", default-features = false }
winit = { version = "0.30", default-features = false, features = ["rwh_06", "x11"] }
winsafe = { version = "0.0.29", features = ["oleaut"] }
