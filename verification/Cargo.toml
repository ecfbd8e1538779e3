[package]
name = "hpscan"
version = "0.1.0"
edition = "2021"
publish = false

[dependencies]
base64 = "0.9"
clap = "2"
hyper = "0.10"
hyper-native-tls = "0.3"
iron = "0.6"
router = "0.6"
sha2 = "0.8"
time = "0.1"
urlencoded = "0.6"
xml-rs = "0.8"
xmltree = "0.10"
