[package]
name = "bluez_battery"
version = "0.1.0"
edition = "2021"
publish = false

[dependencies]
regex = "*"
dbus = "*"
structopt = "*"
fern = { version = "*", features = ["colored"] }
log = "*"
anyhow = "*"
display-error-chain = "*"

[dev-dependencies]
serde_json = "*"
