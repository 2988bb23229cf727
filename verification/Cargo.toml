[package]
name = "huxi_server"
version = "0.1.0"
edition = "2021"
publish = false

[dependencies]
anyhow = "1"
argon2 = "*"
axum = "*"
axum_session = "*"
axum_session_sqlx = "*"
chrono = "0.4"
clap = { version = "4", features = ["derive", "env"] }
dotenv = "*"
image = { version = "*", default-features = false, features = ["png", "jpeg", "gif"] }
kamadak-exif = "*"
maud = "*"
pulldown-cmark = "*"
rand = "*"
regex = "1"
serde = { version = "1", features = ["derive"] }
sqlx = { version = "*", features = ["postgres", "runtime-tokio", "chrono", "uuid"] }
thiserror = "*"
tokio = { version = "1", features = ["full"] }
toml = "*"
tower = "*"
tower-http = { version = "*", features = ["fs", "trace"] }
tracing = "*"
tracing-subscriber = { version = "*", features = ["env-filter"] }
urlencoding = "*"
