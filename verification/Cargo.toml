[package]
name = "rompatch"
version = "0.1.0"
edition = "2021"
publish = false

[dependencies]
clap = { version = "4", features = ["derive"] }
indicatif = "*"
ips = "*"
regex = "1"
reqwest = "*"
reqwest-middleware = "*"
reqwest-retry = "*"
sanitise-file-name = "1"
scraper = "*"
sevenz-rust = "*"
tokio = { version = "1", features = ["macros", "rt-multi-thread", "time"] }
unrar = "*"
walkdir = "2"
zip = "*"
