[package]
name = "ffit"
version = "0.1.0"
edition = "2021"
publish = false

[dependencies]
nix = { version = "=0.29.0", features = ["fs", "signal", "poll", "process"] }
dirs = { version = "=7.0.0" }
directories = { version = "=6.0.0" }
figment = { version = "=0.10.19", features = ["toml", "env"] }
serde = { version = "=1.0.229", features = ["derive"] }
tokio = { version = "=1.53.2", features = ["full"] }
tokio-stream = { version = "=0.1.19", features = ["net"] }
tonic = { version = "=0.14.6" }
tonic-prost = { version = "*" }
prost = { version = "=0.14.4" }
tower = { version = "=0.5.3", features = ["util"] }
hyper-util = { version = "=0.1.21", features = ["tokio"] }
clap = { version = "=4.6.7", features = ["derive"] }
console = { version = "=0.16.6" }
tracing = { version = "=0.1.44" }
tracing-subscriber = { version = "=0.3.23", features = ["env-filter"] }
daemonize = { version = "=0.5.0" }
