[package]
name = "git_skel"
version = "0.1.0"
edition = "2021"
publish = false

[dependencies]
ignore = "*"
git2 = { version = "*", default-features = false }
console = "*"
structopt = "*"
tempfile = "*"
toml = "*"
serde = { version = "*", features = ["derive"] }
openssl-probe = "*"
