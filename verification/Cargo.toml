[package]
name = "stormlib"
version = "0.1.0"
edition = "2021"
publish = false

[dependencies]
widestring = "1"
thiserror = "1"
failure = "0.1"
num-traits = "0.2"
num-derive = "0.4"
clap = "2"
globwalk = "0.8"
serde_json = "1"
