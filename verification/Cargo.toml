[package]
name = "score_ocr"
version = "0.1.0"
edition = "2021"
publish = false

[dependencies]
etterna = "=0.1.0"
etternaonline_api = "=0.2.0"
leptess = "=0.14.0"
plotters = "=0.3.7"
reqwest = { version = "=0.13.5", features = ["blocking", "form", "json"] }
serde = { version = "=1.0.229", features = ["derive"] }
serenity = "=0.12.5"
thiserror = "=1.0.69"
