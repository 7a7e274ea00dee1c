[package]
name = "complete_pic"
version = "0.1.0"
edition = "2021"
publish = false

[dependencies]
bit_field = "=0.10.3"
volatile = "=0.6.1"

[dependencies.x86_64]
version = "=0.15.5"
default-features = false
features = ["instructions"]
