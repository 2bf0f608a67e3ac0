[package]
name = "skim_run"
version = "0.1.0"
edition = "2021"
publish = false

[dependencies]
shlex = "=2.0.1"
clap = "=4.6.7"
regex = "=1.13.1"
serde = { version = "=1.0.229", features = ["derive"] }
serde_json = "=1.0.151"
skim = "=5.7.4"
zbus_systemd = { version = "=0.26200.0", default-features = false, features = ["systemd1", "zbus-async-smol"] }
rink-core = { version = "=0.9.0", features = ["bundle-files"] }
fork = "=0.10.0"
