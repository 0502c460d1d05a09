[package]
name = "back_office"
version = "0.1.0"
edition = "2021"
publish = false

[dependencies]
uuid = { version = "*", features = ["v4"] }
validator = "*"
actix-web = "*"
actix-files = "*"
sqlx = { version = "*", default-features = false, features = ["runtime-tokio-rustls", "postgres", "uuid", "chrono"] }
chrono = { version = "*", default-features = false, features = ["clock"] }
serde = { version = "*", features = ["derive"] }
serde_json = "*"
serde-aux = "*"
secrecy = { version = "0.8", features = ["serde"] }
handlebars = { version = "*", features = ["dir_source"] }
config = { version = "*", default-features = false, features = ["toml"] }
anyhow = "*"
thiserror = "*"
async-trait = "*"
