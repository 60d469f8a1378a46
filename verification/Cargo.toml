[package]
name = "maangframe"
version = "0.1.0"
edition = "2021"
publish = false

[dependencies]
sha2 = "=0.10.9"
hex = "=0.4.3"
rand = "=0.9.5"
uuid = { version = "=1.29.0", features = ["v4"] }
time = { version = "=0.3.55", features = ["formatting", "macros"] }
argon2 = { version = "=0.5.3", features = ["std"] }
thiserror = "=2.0.21"
serde = { version = "=1.0.229", features = ["derive"] }
serde_json = "=1.0.154"
tokio = { version = "=1.54.1", features = ["rt-multi-thread", "macros", "sync", "time", "fs"] }
tracing = "=0.1.44"
redis = { version = "=0.27.6", features = ["tokio-comp", "connection-manager"] }
actix-web = { version = "=4.18.1", default-features = false, features = ["macros", "cookies"] }
walkdir = "=2.5.0"
flate2 = "=1.1.10"
tar = "=0.4.46"
dirs = "=5.0.1"
clap = { version = "=4.6.7", features = ["derive"] }
deadpool-postgres = "=0.14.2"
tokio-postgres = { version = "=0.7.18", features = ["with-uuid-1"] }
lettre = { version = "=0.11.23", default-features = false, features = ["builder", "smtp-transport", "rustls-tls"] }
reqwest = { version = "=0.12.28", default-features = false, features = ["json", "rustls-tls"] }
tracing-subscriber = { version = "0.3", features = ["env-filter"] }
toml = "0.8"
