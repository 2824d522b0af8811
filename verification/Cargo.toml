[package]
name = "eucalyptus"
version = "0.1.0"
edition = "2021"
publish = false

[dependencies]
anyhow = "1"
app_dirs2 = "2"
clap = "4"
flate2 = "1"
tar = "0.4"
zip = { version = "2", default-features = false, features = ["deflate"] }
reqwest = { version = "0.12", default-features = false, features = ["blocking", "rustls-tls"] }
