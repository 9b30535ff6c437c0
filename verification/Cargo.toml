[package]
name = "turbocore"
version = "0.1.0"
edition = "2021"
publish = false

[dependencies]
jwt = "=0.16.0"
hmac = "=0.12.1"
sha2 = "=0.10.9"
rust-argon2 = "=1.0.1"
zxcvbn = "=2.2.2"
uuid = { version = "=1.29.0", features = ["v4"] }
chrono = { version = "=0.4.45", features = ["serde"] }
rand = "=0.8.8"
actix-web = { version = "=4.18.1", default-features = false, features = ["macros", "ws"] }
actix-http = "=3.19.0"
actix-service = "=2.0.3"
actix-ws = "=0.2.5"
sea-orm = { version = "=0.11.3", default-features = false, features = ["macros", "with-chrono", "with-uuid"] }
sea-orm-migration = { version = "=0.11.3", default-features = false }
async-trait = "=0.1.92"
serde = { version = "=1.0.229", features = ["derive"] }
serde_json = "=1.0.154"
lettre = { version = "=0.10.4", default-features = false, features = ["smtp-transport", "builder", "hostname", "tokio1", "tokio1-native-tls"] }
tokio = { version = "=1.54.1", features = ["rt", "macros", "time", "sync"] }
futures = "=0.3.34"
futures-util = "=0.3.34"
log = "=0.4.34"
env_logger = "=0.10.2"
clokwerk = "=0.4.0"
uaparser = "=0.6.4"
sysinfo = "=0.28.4"

[dev-dependencies]
regex = "=1.13.1"
