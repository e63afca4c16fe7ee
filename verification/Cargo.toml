[package]
name = "backend"
version = "0.1.0"
edition = "2021"
publish = false

[dependencies]
actix-cors = "0.7"
actix-files = "0.6"
actix-web = { version = "4", default-features = false, features = ["macros"] }
async-graphql = { version = "7", features = ["chrono", "uuid"] }
async-graphql-actix-web = "7"
bcrypt = "0.15"
chrono = { version = "0.4", default-features = false, features = ["std"] }
dotenvy = "0.15"
reqwest = { version = "0.12", default-features = false, features = ["json", "rustls-tls"] }
serde = { version = "1", features = ["derive"] }
sqlx = { version = "0.8", default-features = false, features = ["chrono", "derive", "postgres", "runtime-tokio", "uuid"] }
tokio = { version = "1", features = ["macros", "rt-multi-thread"] }
uuid = "1"
