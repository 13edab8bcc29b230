[package]
name = "elearning"
version = "0.1.0"
edition = "2021"
publish = false

[dependencies]
actix-web = "4"
chrono = { version = "0.4", features = ["serde"] }
serde = { version = "1", features = ["derive"] }
utoipa = { version = "5", features = ["actix_extras", "chrono"] }
