[package]
name = "mail_attachments"
version = "0.1.0"
edition = "2021"
publish = false

[dependencies]
mail-parser = "0.11"
rustler = { version = "=0.31.0", features = ["nif_version_2_15"] }
