[package]
name = "thread_board"
version = "0.1.0"
edition = "2021"
publish = false

[dependencies]
regex = "1"
pwhash = "1"
chrono = "0.4"
actix-web = "4"
actix-rt = "2"
actix-files = "0.6"
askama = "0.11"
diesel = { version = "1.4", features = ["sqlite", "r2d2", "chrono"] }
r2d2 = "0.8"
r2d2_redis = "0.14"
dotenv = "0.15"
once_cell = "1"
serde = { version = "1", features = ["derive"] }
serde_json = "1"
thiserror = "1"
uuid = { version = "1", features = ["v4"] }
