[package]
name = "alexa_avr_control"
version = "0.1.0"
edition = "2021"
publish = false

[dependencies]
crossbeam-channel = "=0.5.17"
telnet = "=0.2.5"
alexa_sdk = "=0.1.5"
alexa-verifier = "*"
clap = "=2.34.0"
env_logger = "=0.7.1"
log = "=0.4.34"
rouille = "=3.6.2"
serde_json = "=1.0.151"
