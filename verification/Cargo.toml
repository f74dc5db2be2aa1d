[package]
name = "campus_life_events"
version = "0.1.0"
edition = "2021"
publish = false

[dependencies]
argon2 = "=0.5.3"
axum = "=0.8.9"
base64 = "=0.22.1"
chrono = { version = "=0.4.45", features = ["serde"] }
chrono-tz = "=0.10.4"
cookie = "=0.18.2"
dotenvy = "=0.15.7"
icalendar = "=0.17.15"
lettre = { version = "=0.11.23", default-features = false, features = ["builder", "smtp-transport", "tokio1-rustls-tls", "hostname"] }
password-hash = { version = "=0.5.0", features = ["getrandom"] }
password_policy = "=0.1.0"
rand = "=0.8.8"
redis = { version = "=1.8.0", default-features = false, features = ["tokio-comp"] }
serde = { version = "=1.0.229", features = ["derive"] }
serde_json = "=1.0.154"
sqlx = { version = "=0.8.6", default-features = false, features = ["runtime-tokio", "postgres", "chrono", "uuid", "json", "derive", "migrate"] }
thiserror = "=2.0.21"
tokio = { version = "=1.54.1", features = ["rt-multi-thread", "macros", "net"] }
tower-http = { version = "=0.7.1", features = ["cors", "set-header"] }
tracing = "=0.1.44"
tracing-subscriber = { version = "=0.3.23", features = ["env-filter", "fmt", "time"] }
utoipa = { version = "=5.5.0", features = ["axum_extras", "chrono"] }
utoipa-swagger-ui = { version = "=9.0.2", features = ["axum", "vendored"] }
uuid = { version = "=1.29.0", features = ["v4"] }
