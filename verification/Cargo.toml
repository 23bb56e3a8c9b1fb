[package]
name = "conduit-hyper"
version = "0.1.0"
edition = "2021"
publish = false

[dependencies]
conduit = "0.8"
futures = "0.1"
futures-cpupool = "0.1"
http = "0.1"
hyper = "0.12"
log = "0.4"
semver = "0.5"
