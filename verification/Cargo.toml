[package]
name = "sourceforge_dl"
version = "0.1.0"
edition = "2021"
publish = false

[dependencies]
axum = "=0.7.9"
chrono = "=0.4.45"
clap = { version = "=4.6.7", features = ["derive"] }
delay_timer = "=0.11.6"
env_logger = "=0.11.11"
futures-util = "=0.3.34"
http = "=1.5.0"
log = "=0.4.34"
reqwest = { version = "=0.12.28", features = ["cookies", "stream"] }
rss = "=2.1.2"
# teloxide pulls in takecell; 0.1.2 asks for Rust 1.96, so hold it at 0.1.1.
takecell = "=0.1.1"
teloxide = "=0.12.2"
tokio = { version = "=1.54.1", features = ["full"] }
tower-http = { version = "=0.5.2", features = ["fs"] }
