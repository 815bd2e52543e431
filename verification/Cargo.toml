[package]
name = "bunyan_view"
version = "0.1.0"
edition = "2021"
publish = false

[dependencies]
serde_json = { version = "1", features = ["preserve_order"] }
chrono = "0.4"
httpstatus = "*"
colored = "2"
quick-js = "*"
clap = "2"
flate2 = "1"
pager = "*"
