[package]
name = "cmakefmt"
version = "0.1.0"
edition = "2021"
publish = false

[dependencies]
regex = "=1.13.1"
similar = "=3.2.1"
serde = { version = "=1.0.229", features = ["derive"] }
toml = { version = "=1.1.8", features = ["preserve_order"] }
serde_yaml = "0.9"
ec4rs = "=1.2.0"
walkdir = "=2.5.0"
clap = { version = "=4.6.7", features = ["derive"] }
clap_complete = "=4.6.11"
clap_mangen = "=0.3.3"
serde_json = "=1.0.154"
indicatif = "=0.18.6"
tempfile = "=3.27.0"
notify = "=8.2.1"
notify-debouncer-mini = "=0.7.0"
ctrlc = "=3.5.2"
lsp-server = "=0.10.0"
lsp-types = "=0.97.0"
