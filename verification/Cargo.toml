[package]
name = "blog_engine"
version = "0.1.0"
edition = "2021"
publish = false

[dependencies]
regex = "=1.13.1"
rand = "=0.7.3"
scrypt = "=0.4.1"
md-5 = "=0.9.1"
config = { version = "=0.10.1", default-features = false, features = ["toml", "json", "yaml", "ini"] }
actix-web = { version = "=2.0.0", features = ["rustls"] }
actix-files = "=0.2.2"
actix-cors = "=0.2.0"
actix-multipart = "=0.2.0"
actix-rt = "=1.1.1"
chrono = "=0.4.19"
curl = "=0.4.51"
frank_jwt = "=3.1.4"
futures = "=0.3.34"
image = { version = "=0.23.14", default-features = false, features = ["jpeg", "png", "gif", "bmp"] }
lazy_static = "=1.5.1"
mysql = "=17.0.0"
rustls = "=0.16.0"
serde = { version = "=1.0.229", features = ["derive"] }
serde_json = "=1.0.154"
tera = { version = "=1.20.1", default-features = false }
tokio = { version = "=0.2.25", features = ["rt-core", "time"] }
