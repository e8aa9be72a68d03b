[package]
name = "gargamel"
version = "0.1.0"
edition = "2021"
publish = false

[dependencies]
clap = { version = "*", features = ["derive"] }
dunce = "*"
gethostname = "*"
log = "*"
rayon = "*"
rev_lines = "*"
rpassword = "*"
serde = { version = "*", features = ["derive"] }
serde_json = "*"
simplelog = "*"
uuid = { version = "*", features = ["v4"] }
wait-timeout = "*"
wildmatch = "*"
