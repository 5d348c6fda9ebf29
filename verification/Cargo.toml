[package]
name = "qmpo"
version = "0.1.0"
edition = "2021"
publish = false

[dependencies]
url = "=2.5.8"
percent-encoding = "=2.3.2"
clap = { version = "=4.6.7", features = ["derive"] }
directories = "=6.0.0"
plist = "=1.10.3"
thiserror = "=2.0.21"
winreg = "=0.52.0"
