[package]
name = "autovpn"
version = "0.1.0"
edition = "2021"
publish = false

[dependencies]
anyhow = "=1.0.104"
ctrlc = "=3.5.2"
dbus = { version = "=0.9.12", features = ["vendored"] }
dbus-tokio = "=0.7.6"
log = "=0.4.34"
neli = { version = "=0.6.5", features = ["async"] }
pretty_env_logger = "=0.5.0"
serde = { version = "=1.0.229", features = ["derive"] }
tokio = { version = "=1.54.1", features = ["full"] }
toml = "=0.8.23"

[dev-dependencies]
neli-wifi = "=0.6.1"
