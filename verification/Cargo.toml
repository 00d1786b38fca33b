[package]
name = "nft_image_proxy"
version = "0.1.0"
edition = "2021"
publish = false

[dependencies]
sha2 = "=0.11.0"
base64 = "=0.23.1"
hmac = "=0.13.0"
image = { version = "=0.25.10", default-features = false, features = ["png", "jpeg", "gif", "bmp", "tiff"] }
http = "=1.5.0"
hyper = { version = "=1.12.0", features = ["full"] }
chrono = "=0.4.45"
serde = { version = "=1.0.229", features = ["derive"] }
serde_json = "=1.0.151"
tokio = { version = "=1.53.2", features = ["full"] }
hyper-util = { version = "=0.1.21", features = ["full"] }
hyper-tls = "=0.6.0"
hyper-timeout = "=0.5.2"
http-body-util = "=0.1.5"
uuid = { version = "=1.27.0", features = ["v4"] }
dns-lookup = "=4.0.2"
bb8 = "=0.9.1"
bb8-postgres = "=0.9.0"
tokio-postgres = { version = "=0.7.18", features = ["with-chrono-0_4"] }
prometheus = "=0.14.0"
log = "=0.4.34"
async-trait = "=0.1.92"
aws-config = "=1.12.0"
aws-sdk-rekognition = "=1.118.0"
