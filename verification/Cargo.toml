[package]
name = "orcrist"
version = "0.1.0"
edition = "2021"

[dependencies]
named_type = "*"
named_type_derive = "*"
proc-macro2 = "*"
quote = "*"
syn = { version = "*", features = ["full"] }
synstructure = "*"
