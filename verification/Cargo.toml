[package]
name = "bloglib"
version = "0.1.0"
edition = "2021"
publish = false

[dependencies]
rocket = { version = "=0.5.2", features = ["secrets"] }
bcrypt = "=0.19.3"
serde = { version = "=1.0.229", features = ["derive"] }
serde_json = "=1.0.154"
diesel = { version = "=2.3.14", features = ["postgres", "r2d2"] }
tera = "=1.20.1"
rocket_dyn_templates = { version = "=0.2.0", features = ["tera"] }
dotenv = "=0.15.0"
fake = "=5.1.0"
