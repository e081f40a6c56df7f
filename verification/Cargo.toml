[package]
name = "sso"
version = "0.1.0"
edition = "2021"
publish = false

[dependencies]
rust-crypto = "=0.2.36"
rustc-serialize = "=0.3.25"
rand = "=0.3.23"
regex = "=1.13.1"
url = "=1.7.2"
time = "=0.1.45"
libc = "=0.2.191"
toml = "=1.1.8"
log = "=0.4.34"
env_logger = "=0.11.11"
nickel = "=0.11.0"
mustache = "=0.9.0"
rocksdb = "=0.11.0"
