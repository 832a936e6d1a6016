[package]
name = "fx_runtime"
version = "0.1.0"
edition = "2021"
publish = false

[dependencies]
axum = "=0.8.9"
chrono = "=0.4.45"
clap = { version = "=4.6.7", features = ["derive"] }
cron = "=0.17.0"
flume = "=0.12.0"
futures = "=0.3.34"
http = "=1.5.0"
lapin = { version = "=4.12.3", default-features = false }
leptos = { version = "=0.8.23", default-features = false, features = ["ssr"] }
notify = "=8.2.1"
prometheus = { version = "=0.14.0", default-features = false }
rand = "=0.9.5"
rdkafka = "=0.39.0"
reqwest = { version = "=0.13.5", default-features = false, features = ["blocking"] }
rmp-serde = "=1.3.1"
rusqlite = { version = "=0.41.1", features = ["bundled"] }
serde = { version = "=1.0.229", features = ["derive"] }
serde_json = "=1.0.154"
serde_yml = "=0.0.13"
sha2 = "=0.10.9"
slotmap = "=1.1.1"
thiserror = "=2.0.21"
tikv-jemalloc-ctl = { version = "=0.6.1", features = ["stats"] }
tikv-jemallocator = "=0.6.1"
tokio = { version = "=1.54.1", features = ["full"] }
tracing = "=0.1.44"
tracing-subscriber = { version = "=0.3.23", features = ["env-filter"] }
uuid = { version = "=1.29.0", features = ["v4"] }
walkdir = "=2.5.0"
wasmtime = { version = "=44.0.3", default-features = false, features = ["cranelift", "runtime", "std", "async"] }
