[package]
name = "redis_args"
version = "0.1.0"
edition = "2021"
publish = false

[dependencies]
bytes = "1"
bytes-utils = "0.1"
float-cmp = "0.9"
redis-protocol = "4"
