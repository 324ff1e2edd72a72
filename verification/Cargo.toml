[package]
name = "tdv"
version = "0.1.0"
edition = "2021"
publish = false

[dependencies]
url = "2"
serde = { version = "1", features = ["derive"] }
serde_json = "1"
failure = "0.1"
tungstenite = "0.24"
rocket = "0.5"
sled = "0.34"
stdweb = "0.4"
yew = "0.5"
