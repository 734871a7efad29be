[package]
name = "slots"
version = "0.1.0"
edition = "2021"
publish = false

[dependencies]
rand = { version = "=0.8.8", features = ["small_rng"] }
serde = { version = "=1.0.229", features = ["derive"] }
serde_json = "=1.0.154"
jsonwebtoken = "=9.3.1"
redis = { version = "=0.27.6", features = ["tokio-comp", "streams"] }
axum = { version = "=0.8.9", features = ["ws"] }
tokio = { version = "=1.54.1", features = ["full"] }
tonic = "=0.14.9"
tonic-prost = "=0.14.9"
prost = "=0.14.4"
futures = "=0.3.34"
tokio-postgres = "=0.7.18"
anyhow = "=1.0.104"
dioxus = { version = "=0.6.3", features = ["web"] }
web-sys = { version = "=0.3.107", features = ["Window", "Performance", "Document", "Element", "HtmlCanvasElement", "CanvasRenderingContext2d", "console"] }
wasm-bindgen = "=0.2.130"
gloo-render = "=0.2.0"
gloo-timers = { version = "=0.3.0", features = ["futures"] }
