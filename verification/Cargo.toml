[package]
name = "pg_blocking"
version = "0.1.0"
edition = "2021"
publish = false

[dependencies]
tokio = { version = "=1.53.2", features = ["rt", "net", "time", "io-util"] }
tokio-postgres = "=0.7.18"
native-tls = "=0.2.18"
futures = "=0.3.34"
bytes = "1"
