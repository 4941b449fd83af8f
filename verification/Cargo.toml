[package]
name = "led-matrix-rs"
version = "0.1.0"
edition = "2021"
publish = false

[dependencies]
axum = { version = "0.8", features = ["ws"] }
clap = { version = "4", features = ["derive"] }
ctrlc = "3"
image = { version = "0.25", default-features = false, features = ["png", "jpeg", "gif", "bmp"] }
rpi-led-matrix = { version = "0.4", default-features = false }
serde = { version = "1", features = ["derive"] }
tokio = { version = "1", features = ["rt", "macros", "net"] }
tower-http = { version = "0.6", features = ["cors", "trace"] }
tracing = "0.1"
tracing-subscriber = "0.3"
utoipa = "5"
utoipa-swagger-ui = { version = "9", features = ["axum", "vendored"] }
