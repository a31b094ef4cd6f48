[package]
name = "game_lobby"
version = "0.1.0"
edition = "2021"
publish = false

[dependencies]
axum = "0.7"
http = "1"
nanoid = "0.4"
rand = "0.8"
reqwest = { version = "0.12", features = ["json"] }
rmpv = { version = "1", features = ["with-serde"] }
serde = { version = "1", features = ["derive"] }
socketioxide = { version = "0.15", features = ["extensions", "state"] }
tokio = { version = "1", features = ["macros", "net", "rt-multi-thread"] }
tower-http = { version = "0.6", features = ["cors"] }
tracing = "0.1"
tracing-subscriber = "0.3"
