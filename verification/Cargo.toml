[package]
name = "servus"
version = "0.1.0"
edition = "2021"
publish = false

[dependencies]
actix-web = "4"
actix-files = "*"
handlebars = "*"
rust-s3 = "*"
serde = { version = "1", features = ["derive"] }
clap = { version = "4", features = ["derive"] }
config = "*"
directories = "*"
env_logger = "*"
log = "*"
local-ip-address = "*"
