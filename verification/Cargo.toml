[package]
name = "merge_it"
version = "0.1.0"
edition = "2021"
publish = false

[dependencies]
syn = { version = "2", features = ["full"] }
quote = "1"
proc-macro2 = "1"
indexmap = "2"
ordermap = "0.5"
hashbrown = "0.15"
