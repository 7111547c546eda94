[package]
name = "thearning"
version = "0.1.0"
edition = "2021"
publish = false

[dependencies]
bcrypt = "=0.15.1"
chrono = { version = "=0.4.45", features = ["serde"] }
diesel = { version = "=1.4.8", features = ["postgres", "r2d2", "chrono"] }
dotenv = "=0.15.0"
jsonwebtoken = "=8.3.0"
lettre = { version = "=0.10.4", default-features = false, features = ["builder", "smtp-transport", "tokio1-rustls-tls"] }
r2d2 = "=0.8.10"
rand = "=0.8.8"
reqwest = { version = "=0.11.27", default-features = false, features = ["rustls-tls"] }
rocket = { version = "=0.5.2", features = ["json"] }
rocket_cors = "=0.6.0"
scraper = "=0.29.0"
select = "=0.6.1"
serde = { version = "=1.0.229", features = ["derive"] }
serde_json = "=1.0.154"
tokio = { version = "=1.54.1", features = ["rt", "macros"] }
