[package]
name = "server_fn_request"
version = "0.1.0"
edition = "2021"
publish = false

[dependencies]
url = "=2.5.8"
bytes = "=1.12.1"
futures = "=0.3.34"
once_cell = "=1.21.4"
reqwest = { version = "=0.13.5", default-features = false, features = ["multipart"] }
