[package]
name = "janosik"
version = "0.1.0"
edition = "2021"
publish = false

[dependencies]
async-trait = "0.1"
once_cell = "1"
rand = "0.8"
rusqlite = "0.24"
scan_fmt = "0.2"
serenity = "0.9"
simsearch = "0.2"
tokio = { version = "0.2", features = ["macros", "rt-threaded", "sync"] }
tracing = "0.1"
tracing-subscriber = "0.2"
wait-timeout = "0.2"
