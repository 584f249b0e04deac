[package]
name = "ermc192641"
version = "0.1.0"
edition = "2021"
publish = false

[dependencies]
embedded-graphics = "=0.7.1"
embedded-hal = { version = "=0.2.7", features = ["unproven"] }
panic-halt = "=0.2.0"
