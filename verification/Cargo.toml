[package]
name = "cookbook_core"
version = "0.1.0"
edition = "2021"
publish = false

[dependencies]
num-rational = { version = "=0.4.2", features = ["serde"] }
num-traits = "=0.2.19"
uom = { version = "=0.36.0", default-features = false, features = ["rational64", "si", "std"] }
uuid = { version = "=1.29.0", features = ["v4", "serde"] }
form_urlencoded = "=1.2.2"
serde = { version = "=1.0.229", features = ["derive"] }
toml = "=0.8.23"
anyhow = "=1.0.104"
log = "=0.4.35"
clap = { version = "=4.6.7", features = ["derive", "cargo"] }
figment = { version = "=0.10.19", features = ["toml"] }
flexi_logger = "=0.29.8"
tiny_http = "=0.12.0"
ratatui = { version = "=0.29.0", features = ["unstable-widget-ref"] }
crossterm = "=0.28.1"
gix = { version = "=0.90.0", default-features = false, features = ["sha1"] }
