[package]
name = "mortenvistisen_blog"
version = "0.1.0"
edition = "2021"
publish = false

[dependencies]
rand = "=0.8.8"
validator = "=0.16.1"
pulldown-cmark = { version = "=0.13.4", default-features = false, features = ["html"] }
uuid = { version = "=1.27.0", features = ["v4"] }
chrono = { version = "=0.4.45", default-features = false, features = ["clock"] }
argon2 = "=0.6.0"
actix-web = "=4.15.0"
actix-files = "=0.7.0"
actix-identity = "=0.9.0"
actix-session = { version = "=0.11.0", features = ["cookie-session"] }
tokio = { version = "=1.53.2", features = ["macros", "rt-multi-thread"] }
sqlx = { version = "=0.7.4", default-features = false, features = ["runtime-tokio-rustls", "postgres", "uuid", "chrono"] }
tera = "=2.4.0"
toml = "=1.1.7"
serde = { version = "=1.0.229", features = ["derive"] }
config = "=0.15.27"
serde-aux = "=4.7.0"
secrecy = { version = "=0.10.3", features = ["serde"] }
reqwest = { version = "=0.13.5", default-features = false, features = ["json"] }
ignore = "=0.4.33"
tracing = "=0.1.44"
tracing-actix-web = "=0.7.25"
