[package]
name = "quilt_installer"
version = "0.1.0"
edition = "2021"
publish = false

[dependencies]
anyhow = "=1.0.104"
clap = { version = "=4.6.7", features = ["derive"] }
dark-light = "=1.1.1"
native-dialog = "=0.6.4"
png = "=0.17.16"
reqwest = { version = "=0.11.27", default-features = false, features = ["json"] }
semver = "=1.0.28"
serde = { version = "=1.0.229", features = ["derive"] }
serde_json = { version = "=1.0.154", features = ["raw_value"] }
sha1 = "=0.10.7"
tokio = { version = "=1.54.1", features = ["fs", "io-util", "rt-multi-thread", "time"] }
