[package]
name = "gourmestre"
version = "0.1.0"
edition = "2021"
publish = false

[dependencies]
bcrypt = "*"
uuid = { version = "*", features = ["v4"] }
urlencoding = "*"
mime_guess = "*"
url = "*"
serde = { version = "*", features = ["derive"] }
serde_json = "*"
hyper = { version = "*", features = ["server", "http1"] }
http-body-util = "*"
hyper-util = { version = "*", features = ["tokio"] }
tokio = { version = "*", features = ["full"] }
deadpool-postgres = "*"
tokio-postgres = "*"
dotenvy = "*"
