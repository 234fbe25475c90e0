[package]
name = "router"
version = "0.1.0"
edition = "2021"
publish = false

[dependencies]
actix-web = "4"
error-stack = "0.4"
utoipa = "3"
