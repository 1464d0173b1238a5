[package]
name = "puggle"
version = "0.1.0"
edition = "2021"
publish = false

[dependencies]
pulldown-cmark = { version = "=0.13.5", default-features = false, features = ["html"] }
html-escape = "=0.2.15"
url = { version = "=2.5.8", features = ["serde"] }
time = { version = "=0.3.55", features = ["serde", "formatting", "parsing"] }
rss = { version = "=2.1.2", features = ["atom"] }
minijinja = { version = "=2.24.0", features = ["loader", "preserve_order"] }
minijinja-contrib = { version = "=2.24.0", features = ["datetime"] }
serde = { version = "=1.0.229", features = ["derive"] }
serde_yaml = "=0.9.34"
config = { version = "=0.14.1", default-features = false, features = ["yaml"] }
clap = { version = "=4.6.7", features = ["derive"] }
color-eyre = "=0.6.5"
thiserror = "=1.0.69"
tokio = { version = "=1.54.1", features = ["rt-multi-thread", "macros", "net", "sync"] }
axum = "=0.7.9"
tower-http = { version = "=0.5.2", features = ["fs", "compression-gzip"] }
notify = "=6.1.1"
futures = "=0.3.34"
