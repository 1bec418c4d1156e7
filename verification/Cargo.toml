[package]
name = "blextism"
version = "0.1.0"
edition = "2021"
publish = false

[dependencies]
heck = "*"
proc-macro2 = "1"
syn = { version = "2", features = ["full"] }
prettyplease = "0.2"
serde = { version = "1", features = ["derive"] }
serde_json = "1"
smartstring = { version = "1", features = ["serde"] }
extism-pdk = "*"
