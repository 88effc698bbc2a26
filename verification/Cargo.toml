[package]
name = "modrinth"
version = "0.1.0"
edition = "2021"
publish = false

[dependencies]
serde = { version = "*", features = ["derive"] }
serde_json = "*"
serde_path_to_error = "*"
thiserror = "*"
ureq = { version = "*", default-features = false }
url = "*"
futures-core = "*"

[dev-dependencies]
base62 = "*"
