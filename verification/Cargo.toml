[package]
name = "bote"
version = "0.1.0"
edition = "2021"
publish = false

[dependencies]
bzip2-rs = "=0.1.2"
git2 = { version = "=0.21.0", default-features = false }
home = "=0.5.12"
regex = "=1.13.1"
rhai = "=1.26.1"
rhai-url = "=0.0.6"
rust-lzma = "=0.6.0"
shlex = "=2.0.1"
tar = "=0.4.46"
tempfile = "=3.27.0"
ureq = { version = "=3.4.2", default-features = false }
which = { version = "=8.0.6", features = ["regex"] }
zip = { version = "=8.6.0", default-features = false, features = ["deflate"] }
