[package]
name = "quickmd"
version = "0.6.0"
edition = "2021"
publish = false

[dependencies]
anyhow = "1"
directories = "4"
env_logger = "0.9"
gdk = "0.15"
gdk-pixbuf = "0.15"
gio = "0.15"
glib = "0.15"
gtk = "0.15"
log = "0.4"
notify = "4"
pathbuftools = "0.1"
pulldown-cmark = { version = "0.9", default-features = false }
regex = "1"
serde = { version = "1", features = ["derive"] }
serde_json = "1"
serde_yaml = "0.8"
structopt = "0.3"
tempfile = "3"
webkit2gtk = "0.18"
