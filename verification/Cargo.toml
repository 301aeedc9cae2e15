[package]
name = "candles"
version = "0.1.0"
edition = "2021"
publish = false

[dependencies]
bonfida-utils = "=0.2.14"
pyth-sdk-solana = "=0.4.2"
solana-program = "=1.14.29"
regex = "=1.13.1"
chrono = "=0.4.45"
serde = { version = "=1.0.229", features = ["derive"] }
serde_json = "=1.0.154"
actix-web = "=4.18.1"
tokio = { version = "=1.54.1", features = ["full"] }
tokio-postgres = { version = "=0.7.18", features = ["with-chrono-0_4"] }
bb8 = "=0.8.6"
bb8-postgres = "=0.8.1"
bytemuck = "=1.25.2"
clap = "=3.2.25"
sysinfo = "=0.29.11"
futures = "=0.3.34"
derive_more = "=0.99.20"
tokio-pg-mapper = "=0.2.0"
tokio-pg-mapper-derive = "=0.2.0"
