[package]
name = "irrigate"
version = "0.1.0"
edition = "2021"
publish = false

[dependencies]
bcrypt = "=0.19.3"
uuid = { version = "=1.29.0", features = ["v4"] }
dothyphen = "=1.0.0"
chrono = { version = "=0.4.45", features = ["serde"] }
rocket = { version = "=0.5.2", features = ["json", "secrets"] }
deadpool = "=0.13.1"
deadpool-postgres = "=0.14.2"
tokio-postgres = { version = "=0.7.18", features = ["with-chrono-0_4"] }
postgres-from-row = "=0.5.2"
rumqttc = "=0.25.1"
serde = { version = "=1.0.229", features = ["derive"] }
serde_json = "=1.0.154"
tokio = { version = "=1.54.1", features = ["full"] }
tokio-stream = "=0.1.19"
futures = "=0.3.34"
lazy_static = "=1.5.1"
dotenv = "=0.15.0"
rppal = { version = "=0.22.1", features = ["hal"] }
dht11 = "=0.3.1"
url = "=2.5.8"
derive_more = { version = "=2.1.1", features = ["from"] }
