[package]
name = "spotifm"
version = "0.1.0"
edition = "2021"
publish = false

[dependencies]
serde = { version = "1", features = ["derive"] }
serde_json = "1"
actix-web = "4"
actix-rt = "2"
ureq = { version = "2", features = ["json"] }
librespot = { version = "0.4", default-features = false }
