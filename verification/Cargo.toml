[package]
name = "waypoints_bot"
version = "0.1.0"
edition = "2021"
publish = false

[dependencies]
anyhow = "1"
dotenvy = "0.15"
log = "0.4"
poise = "0.6"
simple_logger = "5"
sqlx = { version = "0.8", default-features = false, features = ["runtime-tokio", "postgres", "derive"] }
tokio = { version = "1", features = ["macros", "rt-multi-thread"] }
