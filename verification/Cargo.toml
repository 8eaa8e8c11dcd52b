[package]
name = "webstreamer"
version = "0.1.0"
edition = "2021"
publish = false

[dependencies]
chromiumoxide = "=0.9.1"
futures = "=0.3.34"
futures-util = "=0.3.34"
log = "=0.4.34"
reqwest = { version = "=0.13.5", default-features = false, features = ["rustls"] }
rustls = { version = "=0.23.45", features = ["ring"] }
serde_json = "=1.0.151"
tokio = { version = "=1.53.2", features = ["full"] }
tokio-tungstenite = "=0.30.0"
tracing = "=0.1.44"
tracing-subscriber = { version = "=0.3.23", features = ["env-filter"] }
twitch_api = { version = "=0.8.0", features = ["helix", "eventsub", "client", "twitch_oauth2", "reqwest"] }
