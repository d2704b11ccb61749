[package]
name = "embedjs"
version = "0.1.0"
edition = "2021"
publish = false

[dependencies]
quick-js = "0.4"
serde_json = "1"
sqlite-loadable = "*"
