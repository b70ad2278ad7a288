[package]
name = "ble_net_mngmt"
version = "0.1.0"
edition = "2021"
publish = false

[dependencies]
async-trait = "0.1"
bluer = { version = "0.17", features = ["bluetoothd"] }
futures = "0.3"
serde = { version = "1", features = ["derive"] }
serde_json = "1"
tokio = { version = "1", features = ["macros", "rt-multi-thread", "time"] }
uuid = "1"
zbus = "5"
zvariant = "5"
