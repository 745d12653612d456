[package]
name = "chat_backlog"
version = "0.1.0"
edition = "2021"
publish = false

[dependencies]
actix-web = "4"
anyhow = "1"
async-trait = "0.1"
deadpool-postgres = "0.14"
dotenvy = "0.15"
json5 = "0.4"
rand = "0.9"
reqwest = { version = "0.12", features = ["json"] }
rspotify = { version = "0.15", features = ["cli", "env-file"] }
serde = { version = "1", features = ["derive"] }
serde_json = "1"
tokio = { version = "1", features = ["full"] }
tokio-postgres = { version = "0.7", features = ["with-uuid-1"] }
tracing = "0.1"
tracing-subscriber = "0.3"
twitch-irc = "5"
url = "2"
uuid = { version = "1", features = ["v4", "serde"] }
warp = "0.3"
