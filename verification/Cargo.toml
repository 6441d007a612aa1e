[package]
name = "zero2prod"
version = "0.1.0"
edition = "2021"
publish = false

[dependencies]
mdns-sd = "*"
actix-web = { version = "*", default-features = false, features = ["macros"] }
tokio = { version = "*", default-features = false, features = ["rt-multi-thread", "net", "macros"] }
gethostname = "*"
