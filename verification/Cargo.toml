[package]
name = "metamath_blueprints"
version = "0.1.0"
edition = "2021"
publish = false

[dependencies]
layout-rs = "*"
matter = "0.1.0-alpha4"
pulldown-cmark = "*"
regex = "*"
toml = "*"
serde = { version = "*", features = ["derive"] }
handlebars = "*"
notify = "*"
clap = { version = "*", features = ["cargo"] }
colored = "*"
