[package]
name = "git_dom"
version = "0.1.0"
edition = "2021"
publish = false

[dependencies]
anyhow = "=1.0.104"
atty = "=0.2.14"
clap = { version = "=4.6.7", features = ["derive"] }
clap_complete = { version = "=4.6.11", features = ["unstable-dynamic"] }
clap_mangen = "=0.2.33"
colored = "=2.2.0"
git2 = { version = "=0.21.0", default-features = false }

[dev-dependencies]
tempfile = "=3.27.0"
