[package]
name = "lostpaw"
version = "0.1.0"
edition = "2021"
publish = false

[dependencies]
anyhow = "1"
axum = "0.6"
axum-macros = "0.3"
axum-sessions = "0.5"
dashmap = "5"
indicatif = { version = "0.17", features = ["rayon"] }
numpy = "0.18"
openidconnect = "3"
pyo3 = { version = "0.18", features = ["auto-initialize"] }
rand = "0.8"
rand_distr = "0.4"
rayon = "1"
regex = "1"
serde = { version = "1", features = ["derive"] }
serde_json = "1"
tokio = { version = "1", features = ["full"] }
tower-http = { version = "0.4", features = ["cors", "trace"] }
tracing = "0.1"
tracing-subscriber = { version = "0.3", features = ["env-filter"] }
ureq = "2"
