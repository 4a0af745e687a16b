[package]
name = "systemd_fail_notifications"
version = "0.1.0"
edition = "2021"
publish = false

[dependencies]
anyhow = "=1.0.104"
clap = "=3.2.25"
gethostname = "=0.4.3"
serde = { version = "1", features = ["derive"] }
serde_json = "=1.0.151"
signal-hook = "=0.3.18"
time = { version = "=0.3.55", features = ["formatting"] }
ureq = { version = "=2.12.1", features = ["json"] }
url = "=2.5.8"
zbus = "=1.9.3"
