[package]
name = "fsociety"
version = "0.1.0"
edition = "2021"
publish = false

[dependencies]
chacha20poly1305 = "0.10"
x25519-dalek = "2"
sha2 = "0.10"
rand = "0.8"
zeroize = "1"
tungstenite = { version = "0.21", features = ["rustls-tls-webpki-roots"] }
url = "2"
colored = "2"
crossterm = "0.27"
ratatui = "0.26"
