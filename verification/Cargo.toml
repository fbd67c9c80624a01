[package]
name = "pm_core"
version = "0.1.0"
edition = "2021"
publish = false

[dependencies]
anyhow = "1"
argon2 = "0.5"
base64 = "0.22"
chacha20poly1305 = "0.10"
clap = { version = "4", features = ["derive"] }
copypasta = "0.10"
dirs = "5"
flate2 = "1"
rand = "0.8"
rpassword = "7"
serde = { version = "1", features = ["derive"] }
serde_json = "1"
tar = "0.4"
thiserror = "1"
time = { version = "0.3", features = ["formatting"] }
totp-rs = "5"
url = "2"
walkdir = "2"
zip = { version = "0.6", default-features = false, features = ["deflate", "time"] }
