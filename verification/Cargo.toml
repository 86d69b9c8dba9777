[package]
name = "vaultless_core"
version = "0.1.0"
edition = "2021"
publish = false

[dependencies]
uuid = { version = "1", features = ["v4", "serde"] }
chrono = { version = "0.4", features = ["serde"] }
hex = "0.4"
base64 = "0.22"
rand = "0.9"
getrandom = "0.3"
bcrypt = "*"
pasetors = "0.7"
serde = { version = "1", features = ["derive"] }
serde_json = "1"
deadpool-redis = "*"
sqlx = { version = "0.8", default-features = false, features = ["runtime-tokio", "postgres", "chrono", "uuid", "json"] }
tokio = { version = "1", features = ["rt-multi-thread", "macros", "time", "sync"] }
tracing = "0.1"
moka = { version = "0.12", features = ["future"] }
prometheus = { version = "0.14", default-features = false }
once_cell = "1"
rust_decimal = "1"
futures-util = "0.3"
