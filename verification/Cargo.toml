[package]
name = "acme_proxy_config"
version = "0.1.0"
edition = "2021"
publish = false

[dependencies]
sozu-command-lib = "=0.15.19"
tiny_http = "=0.12.0"
acme-client = "=0.2.0"
clap = "=4.6.7"
log = "=0.4.34"
pretty_env_logger = "=0.5.0"
mio-uds = "=0.6.8"
