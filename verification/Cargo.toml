[package]
name = "quiz_server"
version = "0.1.0"
edition = "2021"
publish = false

[dependencies]
chrono = { version = "=0.4.45", features = ["serde"] }
rand = "=0.10.3"
sha2 = "=0.11.1"
uuid = { version = "=1.29.0", features = ["v4", "serde"] }
serde = { version = "=1.0.229", features = ["derive"] }
thiserror = "=2.0.21"
tracing = "=0.1.44"
sqlx = { version = "=0.9.0", default-features = false, features = ["postgres", "runtime-tokio", "chrono", "uuid", "json", "macros", "migrate"] }
ldap3 = "=0.12.1"
validator = { version = "=0.21.0", features = ["derive"] }
sword = { version = "=0.5.0", features = ["web"] }
tower-http = { version = "=0.7.1", features = ["trace"] }
bon = "=3.10.3"
jsonwebtoken = { version = "=10.4.0", features = ["rust_crypto"] }
