[package]
name = "swarmdrop"
version = "0.1.0"
edition = "2021"
publish = false

[dependencies]
keyring-core = "=1.0.1"
apple-native-keyring-store = { version = "=1.0.2", features = ["keychain"] }
windows-native-keyring-store = "=1.1.0"
dbus-secret-service-keyring-store = { version = "=1.0.1", features = ["crypto-rust", "vendored"] }
android-native-keyring-store = "=1.0.0"
serde = "=1.0.229"
tokio = { version = "=1.54.1", features = ["sync", "rt", "rt-multi-thread"] }
tracing = "=0.1.44"
