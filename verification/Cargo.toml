[package]
name = "mdast"
version = "0.1.0"
edition = "2021"
publish = false

[dependencies]
comrak = { version = "=0.55.0", default-features = false, features = ["shortcodes", "bon"] }
serde_json = "=1.0.151"
