[package]
name = "cnx"
version = "0.1.0"
edition = "2021"
publish = false

[dependencies]
chrono = "0.4"
tokio = { version = "1", features = ["rt", "rt-multi-thread", "time", "sync", "macros"] }
tokio-stream = "0.1"
futures = "0.3"
anyhow = "1"
async-trait = "0.1"
mpd = "*"
inotify = "*"
