[package]
name = "oplog"
version = "0.1.0"
edition = "2021"
publish = false

[dependencies]
bson = "=2.15.0"
chrono = "=0.4.45"
mongodb = { version = "=3.9.1", features = ["sync"] }
