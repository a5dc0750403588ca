[package]
name = "odoo_cli"
version = "0.1.0"
edition = "2021"
publish = false

[dependencies]
clap = { version = "4", features = ["derive"] }
configparser = "3"
console = "0.15"
crossterm = "0.28"
ctrlc = "3"
dirs = "5"
etc-os-release = "0.1"
indicatif = "0.17"
inquire = "0.7"
libc = "0.2"
ratatui = "0.29"
regex = "1"
serde = { version = "1", features = ["derive"] }
serde_json = "1"
signal-hook = "0.3"
toml = "0.8"
which = "6"
