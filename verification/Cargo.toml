[package]
name = "beatdrop"
version = "0.1.0"
edition = "2021"
publish = false

[dependencies]
base64 = "0.21"
chrono = { version = "0.4", default-features = false, features = ["now", "std", "serde"] }
clokwerk = "0.4"
config = { version = "0.14", default-features = false, features = ["toml"] }
constant_time_eq = "0.3"
duration-string = { version = "0.3", features = ["serde"] }
eyre = "0.6"
futures = "0.3"
hmac = "0.12"
hound = "3.5"
jwt = "0.16"
lazy_static = "1.4"
minimp3_fixed = "0.5"
rand = "0.8"
reqwest = { version = "0.11", default-features = false, features = ["json", "stream"] }
rocket = { version = "0.5", features = ["json"] }
serde = { version = "1", features = ["derive"] }
sha2 = "0.10"
tokio = { version = "1", features = ["rt-multi-thread", "macros", "sync", "time", "fs"] }
tokio-util = { version = "0.7", features = ["io"] }
