[package]
name = "rust_template"
version = "0.1.0"
edition = "2021"
publish = false

[dependencies]
actix-web = { version = "=4.15.0", default-features = false, features = ["macros"] }
bcrypt = "=0.19.3"
bigdecimal = "=0.4.11"
chrono = "=0.4.45"
dotenvy = "=0.15.7"
jsonwebtoken = "=11.1.0"
reqwest = { version = "=0.13.5", default-features = false, features = ["form", "json"] }
serde = { version = "=1.0.229", features = ["derive"] }
serde_json = "=1.0.151"
sqlx = { version = "=0.9.0", default-features = false, features = ["runtime-tokio", "postgres", "chrono", "uuid", "bigdecimal"] }
uuid = { version = "=1.27.0", features = ["serde", "v4"] }
