[package]
name = "berkalkulator"
version = "0.1.0"
edition = "2021"
publish = false

[dependencies]
csv = "*"
gettext = "*"
log = "*"
env_logger = "*"
sys-locale = "*"
