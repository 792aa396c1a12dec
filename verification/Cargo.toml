[package]
name = "zova"
version = "0.1.0"
edition = "2021"
publish = false

[dependencies]
uuid = { version = "1", features = ["v7"] }
sqlx = { version = "0.8", default-features = false, features = ["sqlite", "runtime-tokio", "derive"] }
tokio = { version = "1", features = ["rt"] }
snafu = "0.8"
