[package]
name = "workplace_watch"
version = "0.1.0"
edition = "2021"
publish = false

[dependencies]
serde_json = "1.0"
chrono = "0.4"
notify = "6"
ctrlc = "3"
