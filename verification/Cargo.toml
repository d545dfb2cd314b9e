[package]
name = "tasc"
version = "0.1.0"
edition = "2021"
publish = false

[dependencies]
anyhow = "1"
config = { version = "0.10", default-features = false, features = ["toml"] }
diesel = { version = "1.4", features = ["sqlite"] }
diesel_migrations = "1.4"
im = "15"
itertools = "0.9"
structopt = "0.3"
thiserror = "1"
uuid = { version = "0.8", features = ["v4"] }
