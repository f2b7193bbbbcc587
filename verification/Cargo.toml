[package]
name = "panda_playground"
version = "0.1.0"
edition = "2021"
publish = false

[dependencies]
android_logger = "0.15"
anyhow = "=1.0.104"
audiopus = "=0.3.0-rc.0"
futures-util = { version = "=0.3.34", default-features = false, features = ["std"] }
hex = "=0.4.3"
jni = { version = "=0.21.1", default-features = false }
log = "=0.4.35"
ndk-context = "=0.1.1"
oslog = "0.2"
p2panda-core = "=0.5.2"
p2panda-net = { version = "=0.5.2", default-features = false }
tokio = { version = "=1.54.1", features = ["rt-multi-thread", "sync"] }
