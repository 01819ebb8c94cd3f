[package]
name = "bible_api"
version = "0.1.0"
edition = "2021"
publish = false

[dependencies]
rand = "0.9"
actix-web = { version = "4", default-features = false, features = ["macros"] }
sqlx = { version = "0.8", default-features = false, features = ["postgres", "runtime-tokio", "derive"] }
serde = { version = "1", features = ["derive"] }
serde_json = "1"
utoipa = { version = "5", features = ["actix_extras"] }
