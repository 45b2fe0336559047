[package]
name = "secure_device_rotation"
version = "0.1.0"
edition = "2021"
publish = false

[dependencies]
async-trait = "=0.1.92"
base64 = "=0.22.1"
chrono = { version = "=0.4.45", features = ["serde"] }
clap = { version = "=4.6.7", features = ["derive"] }
futures-util = "=0.3.34"
http = "=1.5.0"
openidconnect = "=4.1.0"
reqwest = { version = "=0.12.28", default-features = false, features = ["rustls-tls", "stream", "json"] }
ring = "=0.17.14"
rumqttc = { version = "=0.25.1", default-features = false, features = ["use-rustls"] }
rustix = { version = "=1.1.6", features = ["fs"] }
rustls = "=0.23.46"
rustls-pemfile = "=2.2.0"
serde = { version = "=1.0.229", features = ["derive"] }
serde_json = "=1.0.154"
serde_with = "=3.24.0"
sha2 = "=0.10.9"
tokio = { version = "=1.54.1", features = ["full"] }
tokio-util = "=0.7.20"
tower = { version = "=0.5.3", features = ["util"] }
url = "=2.5.8"
uuid = { version = "=1.29.0", features = ["serde", "v4"] }
webbrowser = "=1.2.6"
x509-parser = "=0.18.1"
thiserror = "=2.0.21"
tracing = "=0.1.44"

[dev-dependencies]
rand = "=0.8.8"
rcgen = "=0.14.10"
rsa = "=0.9.10"
