[package]
name = "service-starter"
version = "0.1.0"
edition = "2021"
publish = false

[dependencies]
md5 = "=0.7.0"
uuid = { version = "=0.8.2", features = ["v4"] }
rand = "=0.8.8"
serde = { version = "=1.0.229", features = ["derive"] }
serde_json = "=1.0.154"
openssl = "=0.10.82"
actix-web = { version = "=3.3.3", default-features = false, features = ["openssl"] }
mysql_async = { version = "=0.37.1", default-features = false }
redis = { version = "=0.17.0", default-features = false, features = ["aio", "tokio-comp"] }
redis-async-pool = "=0.2.4"
serde_yaml = "=0.8.26"
serde-xml-rs = "=0.8.2"
log = "=0.4.35"
log4rs = "=1.4.0"
tencent_sms = "=0.1.2"
validator = { version = "=0.21.0", features = ["derive"] }
futures-lite = "=2.6.1"
num = "=0.4.3"
num-derive = "=0.5.1"
