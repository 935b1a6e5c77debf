[package]
name = "algorithmia_cli"
version = "0.1.0"
edition = "2021"
publish = false

[dependencies]
url = "*"
algorithmia = "*"
toml = "*"
serde = { version = "*", features = ["derive"] }
getopts = "*"
rpassword = "*"
