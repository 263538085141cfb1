[package]
name = "supabasic"
version = "0.1.0"
edition = "2021"
publish = false

[dependencies]
serde = { version = "*", features = ["derive"] }
serde_json = "*"
reqwest = { version = "*", default-features = false, features = ["blocking", "json"] }
chrono = { version = "*", features = ["serde"] }
uuid = { version = "*", features = ["serde"] }
thiserror = "*"
