[package]
name = "s3proxy"
version = "0.1.0"
edition = "2021"
publish = false

[dependencies]
rust-s3 = "*"
actix-web = "*"
dotenv = "*"
env_logger = "*"
log = "*"
