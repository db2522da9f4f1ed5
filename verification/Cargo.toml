[package]
name = "clockify"
version = "0.1.0"
edition = "2021"
publish = false

[dependencies]
aho-corasick = "0.7"
chrono = "0.4"
reqwest = { version = "0.11", default-features = false, features = ["blocking", "json"] }
serde = { version = "1", features = ["derive"] }
confy = "0.4"
clap = { version = "3", features = ["derive"] }
tui = "0.19"
crossterm = "0.25"
