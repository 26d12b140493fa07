[package]
name = "epson_bridge"
version = "0.1.0"
edition = "2021"
publish = false

[dependencies]
anyhow = "1"
axum = "*"
bytes = "1"
futures = "0.3"
log = "0.4"
log4rs = { version = "1", default-features = false, features = ["console_appender"] }
serde = { version = "1", features = ["derive"] }
serialport = { version = "4", default-features = false }
tokio = { version = "1", features = ["full"] }
tokio-serial = "*"
tokio-stream = "0.1"
tokio-util = { version = "0.7", features = ["codec"] }
utoipa = "*"
utoipa-redoc = { version = "*", features = ["axum"] }
utoipa-swagger-ui = { version = "*", features = ["axum", "vendored"] }
