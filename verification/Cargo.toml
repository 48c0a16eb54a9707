[package]
name = "sitch"
version = "0.1.0"
edition = "2021"
publish = false

[dependencies]
atty = "=0.2.14"
chrono = { version = "=0.4.45", features = ["serde"] }
colored = "=2.2.0"
dirs = "=5.0.1"
notify-rust = "=4.18.2"
rayon = "=1.12.0"
reqwest = { version = "=0.12.28", default-features = false, features = ["blocking", "json", "native-tls"] }
rss = "=2.1.2"
select = "=0.6.1"
serde = { version = "=1.0.229", features = ["derive"] }
serde_json = "=1.0.154"
structopt = "=0.3.26"
webbrowser = "=1.2.5"
