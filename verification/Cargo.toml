[package]
name = "mltd"
version = "0.1.0"
edition = "2021"
publish = false

[dependencies]
regex = "=1.13.1"
rmp-serde = "=1.3.1"
linked-hash-map = { version = "=0.5.6", features = ["serde_impl"] }
serde = { version = "=1.0.229", features = ["derive"] }
serde_json = "=1.0.154"
aes = "=0.8.4"
cbc = { version = "=0.1.2", features = ["alloc"] }
cipher = { version = "=0.4.4", features = ["alloc", "block-padding"] }
pbkdf2 = "=0.12.2"
sha1 = "=0.10.7"
texture2ddecoder = "=0.1.2"
clap = { version = "=4.6.7", features = ["derive"] }
image = { version = "=0.25.10", default-features = false, features = ["png"] }
ureq = { version = "=2.12.1", features = ["json"] }
num_cpus = "=1.17.0"
rabex = "*"

[dev-dependencies]
rand = "=0.8.8"
