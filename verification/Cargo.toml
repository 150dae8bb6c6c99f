[package]
name = "maraetai"
version = "0.1.0"
edition = "2021"
publish = false

[dependencies]
rand = "=0.8.8"
urlencoding = "=2.1.3"
serde_json = { version = "=1.0.154", features = ["raw_value"] }
anyhow = "=1.0.104"
clap = { version = "=4.6.7", features = ["derive"] }
crossterm = "=0.28.1"
directories = "=6.0.0"
image = { version = "=0.25.10", default-features = false, features = ["jpeg", "png"] }
keyring = { version = "=3.6.3", features = ["linux-native", "apple-native"] }
libc = "=0.2.191"
md5 = "=0.7.0"
mpris-server = "=0.9.0"
nix = { version = "=0.29.0", default-features = false, features = ["fs"] }
ratatui = "=0.28.1"
ratatui-image = { version = "=2.0.1", default-features = false }
reqwest = { version = "=0.12.28", default-features = false, features = ["json", "blocking", "rustls-tls"] }
rodio = "=0.21.1"
serde = { version = "=1.0.229", features = ["derive"] }
tokio = { version = "=1.54.1", features = ["full"] }
toml = { version = "=0.8.23", features = ["preserve_order"] }
tracing = "=0.1.44"
tracing-subscriber = { version = "=0.3.23", features = ["env-filter"] }
zbus = { version = "=5.19.0", features = ["tokio"] }
