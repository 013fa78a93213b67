[package]
name = "shop_rs"
version = "0.1.0"
edition = "2021"
publish = false

[dependencies]
anyhow = "1"
colored = "*"
css-color-parser2 = "*"
directories = "*"
rand = "0.8"
serde = { version = "1", features = ["derive"] }
serde_json = "1"
structopt = "0.3"
toml = "*"
ureq = { version = "2", default-features = false, features = ["json"] }
uuid = { version = "1", features = ["v4"] }
