[package]
name = "fedramp_scraper"
version = "0.1.0"
edition = "2021"
publish = false

[dependencies]
csv = "1"
clap = { version = "4", features = ["derive"] }
thirtyfour = "*"
tokio = { version = "1", features = ["rt-multi-thread", "macros"] }
