[package]
name = "tbgui"
version = "0.1.0"
edition = "2021"
publish = false

[dependencies]
uuid = { version = "=1.29.0", features = ["v4"] }
async-ssh2-tokio = "=0.12.2"
russh-sftp = "=2.1.2"
tokio = { version = "=1.54.1", features = ["fs", "io-util", "rt-multi-thread", "macros"] }
directories-next = "=2.0.0"
rfd = { version = "=0.16.1", default-features = false, features = ["xdg-portal", "tokio"] }
open = "=5.4.5"
serde = { version = "=1.0.229", features = ["derive"] }
log = "=0.4.34"
tracing = "=0.1.44"
slotmap = "=1.1.1"
emojis = "=0.9.1"
