[package]
name = "congress"
version = "0.1.0"
edition = "2021"
publish = false

[dependencies]
url = "*"
reqwest = { version = "*", default-features = false, features = ["json"] }
serde = { version = "*", features = ["derive"] }
serde_json = "*"
serde_path_to_error = "*"
chrono = { version = "*", features = ["serde"] }

[dev-dependencies]
serde_urlencoded = "*"
