[package]
name = "graduate-cli"
version = "0.1.0"
edition = "2021"
publish = false

[dependencies]
clap = { version = "=4.6.7", features = ["derive"] }
crossterm = "=0.29.0"
dirs = "=7.0.0"
fs2 = "=0.4.3"
futures-util = "=0.3.34"
getrandom = "=0.4.3"
gix = { version = "=0.90.0", default-features = false, features = ["sha1"] }
hmac = "=0.13.0"
ratatui = { version = "=0.30.2", default-features = false, features = ["crossterm", "unstable-rendered-line-info"] }
reqwest = { version = "=0.12.28", default-features = false, features = ["rustls-tls", "stream"] }
serde = { version = "=1.0.229", features = ["derive"] }
serde_json = "=1.0.154"
sha2 = "=0.11.1"
tempfile = "=3.27.0"
thiserror = "=2.0.21"
tokio = { version = "=1.54.1", features = ["macros", "rt-multi-thread", "time"] }
tui-input = "=0.15.5"
url = "=2.5.8"
