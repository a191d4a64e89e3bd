[package]
name = "wasted_time"
version = "0.1.0"
edition = "2021"
publish = false

[dependencies]
ctrlc = "3"
directories = "*"
kernel32-sys = "0.2"
rand = "0.8"
regex = "1"
rusqlite = "*"
serde_json = "1"
time = "0.1"
toml = "0.5"
user32-sys = "0.2"
winapi = "0.2"
