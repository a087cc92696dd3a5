[package]
name = "fastclip"
version = "0.1.0"
edition = "2021"
publish = false

[dependencies]
argon2 = { version = "=0.5.3", features = ["zeroize"] }
chacha20poly1305 = { version = "=0.10.1", features = ["getrandom"] }
subtle = "=2.6.1"
zeroize = "=1.9.1"
uuid = { version = "=1.29.0", features = ["v4"] }
serde = { version = "=1.0.229", features = ["derive"] }
serde_json = "=1.0.154"
rusqlite = { version = "=0.31.0", features = ["bundled"] }
dirs = "=5.0.1"
log = "=0.4.35"
windows-sys = { version = "=0.59.0", features = ["Win32_Foundation", "Win32_Security_Cryptography"] }
