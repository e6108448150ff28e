[package]
name = "sas7bdat"
version = "0.1.0"
edition = "2021"
publish = false

[dependencies]
byteorder = "1"
encoding_rs = "0.8"
log = "0.4"
error-chain = { version = "0.12", default-features = false }
