[package]
name = "code_radio"
version = "1.0.0"
edition = "2021"
publish = false

[dependencies]
anyhow = "*"
clap = { version = "=4.6.7", features = ["derive"] }
colored = "=3.1.1"
console = "=0.16.6"
eventsource-client = "=0.12.2"
futures-util = "*"
indicatif = "=0.18.6"
inquire = "=0.9.4"
libc = "*"
minimp3 = "=0.5.2"
once_cell = "*"
reqwest = { version = "=0.12.28", default-features = false, features = ["blocking", "json", "rustls-tls"] }
rodio = { version = "=0.22.2", default-features = false, features = ["playback"] }
serde = { version = "*", features = ["derive"] }
serde_json = "*"
tokio = { version = "=1.53.2", features = ["full"] }
version-compare = "=0.2.1"
