[package]
name = "dcds"
version = "0.1.0"
edition = "2021"
publish = false

[dependencies]
hex = "=0.4.3"
serde = { version = "1", features = ["derive"] }
serde_json = "1"
chrono = { version = "0.4", default-features = false, features = ["serde", "clock", "std"] }
log = "0.4"
simple_logger = "1.16"
clap = "2.34"
actix-web = { version = "4", default-features = false, features = ["macros"] }
actix-rt = "2"
tokio = { version = "1", features = ["fs", "io-util", "rt", "macros"] }
tokio-postgres = { version = "0.7", features = ["with-serde_json-1", "with-chrono-0_4"] }
deadpool-postgres = "0.14"
reqwest = { version = "0.12", default-features = false, features = ["json"] }
rand = "0.7"
