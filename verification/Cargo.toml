[package]
name = "feedctl"
version = "0.1.0"
edition = "2021"
publish = false

[dependencies]
chrono = "0.4"
html2md = "0.2"
regex = "1"
rss = "2"
rusqlite = { version = "*", features = ["bundled"] }
termion = "1.5"
tui = { version = "0.19", default-features = false, features = ["termion"] }
webbrowser = "*"
