[package]
name = "audio"
version = "0.1.0"
edition = "2021"
publish = false

[dependencies]
log = "0.4"
opus = "0.3"
rodio = { version = "0.19", default-features = false }
rusty_ytdl = { version = "*", default-features = false }
symphonia = { version = "0.5", default-features = false, features = ["mkv"] }
tokio = { version = "1", features = ["rt-multi-thread", "sync", "time"] }
ureq = { version = "2", default-features = false }
