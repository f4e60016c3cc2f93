[package]
name = "oyasumivr"
version = "0.1.0"
edition = "2021"
publish = false

[dependencies]
base64 = "=0.22.1"
rand = "=0.9.5"
serde = { version = "=1.0.229", features = ["derive"] }
serde_json = "=1.0.154"
serde_repr = "=0.1.21"
toml = "=0.8.23"
tokio = { version = "=1.54.1", features = ["rt-multi-thread", "macros", "sync", "time", "fs", "net", "process", "io-util"] }
pulseaudio = "=0.3.2"
log = "=0.4.35"
env_logger = "=0.11.11"
xdg = "=3.0.0"
dbus = "=0.9.12"
zbus = "=5.19.0"
ppd = "=0.1.7"
glam = "=0.34.2"
vrchat_osc = "=2.2.0"
portpicker = "=0.1.1"
futures-util = "=0.3.34"
tokio-tungstenite = "=0.30.0"
axum = "=0.8.9"
tower-http = { version = "=0.7.1", features = ["fs", "cors"] }
