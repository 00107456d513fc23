[package]
name = "diskspace"
version = "0.1.0"
edition = "2021"
publish = false

[dependencies]
bytesize = "=1.3.3"
parking_lot = "=0.13.0"
systemstat = "=0.2.7"
clap = { version = "=4.6.7", features = ["derive"] }
serde = { version = "=1.0.229", features = ["derive"] }
serde_derive = "=1.0.229"
serde_json = "=1.0.154"
thiserror = "=2.0.21"
tokio = { version = "=1.54.1", features = ["rt-multi-thread", "time"] }
xdg-basedir = "=1.0.0"
native-windows-gui = "=1.0.13"
native-windows-derive = "=1.0.5"
registry = "=1.3.0"
