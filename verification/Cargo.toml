[package]
name = "crabler"
version = "0.1.0"
edition = "2021"
publish = false

[dependencies]
async-std = "1"
crabquery = "*"
femme = "2"
log = "0.4"
surf = "2"
thiserror = "1"
