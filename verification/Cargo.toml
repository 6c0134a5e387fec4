[package]
name = "sp105e"
version = "0.1.0"
edition = "2021"
publish = false

[dependencies]
anyhow = "=1.0.104"
bluer = { version = "=0.17.4", features = ["bluetoothd"] }
clap = { version = "=4.6.7", features = ["derive"] }
dbus = { version = "=0.9.12", features = ["vendored"] }
futures-core = "=0.3.34"
futures-util = "=0.3.34"
tokio = { version = "=1.54.1", features = ["macros", "rt-multi-thread", "time"] }
