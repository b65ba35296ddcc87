[package]
name = "clypperlib"
version = "0.1.0"
edition = "2021"
publish = false

[dependencies]
regex = "1"
chrono = { version = "0.4", default-features = false, features = ["std"] }
numtoa = "0.2"
curl = "0.4"
indicatif = "0.17"
console = "0.15"
dioxus = "0.4"
