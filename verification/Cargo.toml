[package]
name = "voxium"
version = "0.1.0"
edition = "2021"
publish = false

[dependencies]
serde_json = "=1.0.151"
base64 = "=0.23.1"
rsa = { version = "=0.9.10", features = ["getrandom"] }
sha2 = "=0.10.9"
serde = { version = "=1.0.229", features = ["derive"] }
qrcode = "=0.14.1"
image = { version = "=0.25.10", default-features = false, features = ["png"] }
uuid = { version = "=1.27.0", features = ["v4"] }
futures-util = "=0.3.34"
tokio = { version = "=1.53.2", features = ["rt-multi-thread", "macros", "sync", "time", "net", "io-util"] }
tokio-tungstenite = "=0.30.0"
reqwest = { version = "=0.13.5", default-features = false, features = ["json"] }
actix-web = { version = "=4.15.0", default-features = false, features = ["macros"] }
