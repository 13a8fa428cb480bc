[package]
name = "lop"
version = "0.1.0"
edition = "2021"
publish = false

[dependencies]
anstream = "*"
chrono = "=0.4.45"
clap = { version = "*", features = ["derive"] }
cli-clipboard = "=0.4.0"
dialoguer = "=0.12.0"
owo-colors = "*"
qr2term = "=0.3.3"
reqwest = { version = "=0.13.5", default-features = false, features = ["blocking", "multipart", "json", "form"] }
serde = { version = "*", features = ["derive"] }
url = "=2.5.8"
