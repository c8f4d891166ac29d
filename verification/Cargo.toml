[package]
name = "oaidl"
version = "0.1.0"
edition = "2021"
publish = false

[dependencies]
rust_decimal = { version = "1", default-features = false, features = ["std"] }
widestring = "1"
winapi = { version = "0.3", features = ["oaidl", "oleauto", "wtypes", "wtypesbase", "unknwnbase"] }
