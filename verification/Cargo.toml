[package]
name = "job_board"
version = "0.1.0"
edition = "2021"
publish = false

[dependencies]
actix-cors = "*"
actix-web = "*"
chrono = "*"
dotenv = "*"
env_logger = "*"
log = "*"
rusqlite = "*"
serde = { version = "*", features = ["derive"] }
