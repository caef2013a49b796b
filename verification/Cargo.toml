[package]
name = "foro"
version = "0.1.0"
edition = "2021"
publish = false

[dependencies]
anstyle = "=1.0.14"
anyhow = "=1.0.104"
clap = { version = "=4.6.7", features = ["derive"] }
clap-verbosity-flag = "=3.0.4"
dialoguer = "=0.11.0"
dirs = "=6.0.0"
env_logger = "=0.11.11"
file-lock = "=2.1.11"
ignore = "=0.4.33"
log = "=0.4.34"
minijinja = "=2.24.0"
nix = { version = "=0.29.0", features = ["process", "fs", "feature"] }
notify = "=8.2.1"
num_cpus = "=1.17.0"
os_pipe = "=1.2.3"
serde = { version = "=1.0.229", features = ["derive"] }
serde_json = "=1.0.154"
shell-words = "=1.1.1"
url = "=2.5.8"
urlencoding = "=2.1.3"
winsplit = "*"
