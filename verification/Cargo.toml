[package]
name = "paimon"
version = "0.1.0"
edition = "2021"
publish = false

[dependencies]
url = "2"
tokio = { version = "1", features = ["rt", "rt-multi-thread", "sync"] }
futures = "0.3"
bytes = "1"
async-trait = "0.1"
opendal = "*"
opendal-service-hdfs-native = "*"
