[package]
name = "s3_file_sync"
version = "0.1.0"
edition = "2021"
publish = false

[dependencies]
base64 = "0.13"
chrono = "0.4"
clap = "2.33"
crossbeam-channel = "0.5"
fern = { version = "0.6", features = ["colored"] }
log = "0.4"
md5 = "0.7"
notify = "4.0"
rusoto_core = "0.42"
rusoto_s3 = "0.42"
rusqlite = { version = "0.21", features = ["bundled"] }
