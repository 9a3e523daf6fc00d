[package]
name = "tfl_status"
version = "0.1.0"
edition = "2021"
publish = false

[dependencies]
serde_json = "*"
prettytable-rs = "*"
textwrap = { version = "*", features = ["terminal_size"] }
structopt = "*"
reqwest = { version = "*", default-features = false, features = ["blocking"] }
