[package]
name = "httpflow"
version = "0.1.0"
edition = "2021"
publish = false

[dependencies]
url = "*"
native-tls = "*"
hyper = "0.10"
hyper-native-tls = "0.3"
