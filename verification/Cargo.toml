[package]
name = "cornucopia"
version = "0.1.0"
edition = "2021"
publish = false

[dependencies]
heck = "0.5"
indexmap = "2"
postgres-types = "0.2"
tokio-postgres = "0.7"
futures = "0.3"
thiserror = "2"
miette = "7"
