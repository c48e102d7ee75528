[package]
name = "flashcard_quiz"
version = "0.1.0"
edition = "2021"
publish = false

[dependencies]
bcrypt = "=0.19.3"
chrono = "=0.4.45"
uuid = "=1.29.1"
sea-orm = { version = "=1.1.20", default-features = false }
serde = { version = "=1.0.229", features = ["derive"] }
serde_json = { version = "=1.0.154", features = ["preserve_order"] }
jsonwebtoken = "=9.3.1"
async-trait = "=0.1.92"
tokio = { version = "=1.54.1", features = ["time", "macros", "rt"] }
tracing = "=0.1.44"
once_cell = "=1.21.4"
parking_lot = "=0.12.5"
