[package]
name = "deeplynx_loader"
version = "0.1.0"
edition = "2021"
publish = false

[dependencies]
chrono = "=0.4.39"
duckdb = "=0.9.2"
fern = "0.6"
jwt = "=0.16.0"
log = "0.4"
multipart = { version = "=0.18.0", default-features = false, features = ["client"] }
new_mime_guess = "=4.0.4"
pyo3 = "=0.20.3"
serde = { version = "1", features = ["derive"] }
serde_json = "1"
serde_yaml = "0.9"
thiserror = "1"
ureq = { version = "=2.12.1", features = ["json"] }
uuid = { version = "=1.29.0", features = ["v4"] }
