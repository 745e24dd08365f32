[package]
name = "linkblocks"
version = "0.1.0"
edition = "2021"
publish = false

[dependencies]
uuid = { version = "1", features = ["v4", "serde"] }
url = { version = "2", features = ["serde"] }
percent-encoding = "2"
argon2 = "0.5"
time = { version = "0.3", features = ["serde", "formatting", "parsing"] }
activitypub_federation = { version = "0.6", default-features = false, features = ["axum"] }
garde = { version = "0.22", features = ["derive", "url"] }
link-preview = "*"
serde = { version = "1", features = ["derive"] }
serde_json = "1"
sqlx = { version = "0.8.6", default-features = false, features = ["postgres", "runtime-tokio", "uuid", "time", "migrate", "derive", "json"] }
axum = "0.8"
tokio = { version = "1", features = ["full"] }
tower-sessions = "0.14"
reqwest = { version = "0.12", default-features = false, features = ["json", "rustls-tls"] }
clap = { version = "4", features = ["derive", "env"] }
tracing = "0.1"
tracing-subscriber = { version = "0.3", features = ["env-filter"] }
anyhow = "1"
thiserror = "2"
async-trait = "0.1"
chrono = "0.4"
redact = "*"
friendly-zoo = "*"
rand = "0.9"
serde_qs = "*"
serde-aux = "*"
