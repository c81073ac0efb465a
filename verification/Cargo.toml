[package]
name = "prescience"
version = "0.1.0"
edition = "2021"
publish = false

[dependencies]
async-stream = "0.3"
futures-core = "0.3"
http = "1"
prost = "0.13"
prost-types = "0.13"
serde = "1"
thiserror = "1"
tokio-stream = "0.1"
tonic = "0.12"
