[package]
name = "timetable"
version = "0.1.0"
edition = "2021"
publish = false

[dependencies]
postgres = "*"
dotenvy = "*"
serde = { version = "*", features = ["derive"] }
