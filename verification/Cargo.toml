[package]
name = "eventmap"
version = "0.1.0"
edition = "2021"
publish = false

[dependencies]
chrono = "0.4"
chrono-tz = "0.10"
regex = "1"
html-escape = "0.2"
num-format = "0.4"
serde = { version = "1", features = ["derive"] }
reqwest = { version = "0.12", features = ["json"] }
tokio = { version = "1", features = ["macros", "rt-multi-thread"] }
tokio-postgres = { version = "0.7", features = ["with-chrono-0_4"] }
postgis = "0.9"
futures = "0.3"
actix-web = { version = "4", default-features = false, features = ["macros"] }
actix-cors = "0.7"
async-trait = "0.1"
