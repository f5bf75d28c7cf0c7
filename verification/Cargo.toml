[package]
name = "knurdy"
version = "0.1.0"
edition = "2021"
publish = false

[dependencies]
base64 = "0.13"
heck = "0.4"
kdl = "4"
serde = "1"
thiserror = "1"
