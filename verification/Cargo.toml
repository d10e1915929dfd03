[package]
name = "nw_browse"
version = "0.1.0"
edition = "2021"
publish = false

[dependencies]
tokio = { version = "*", features = ["macros", "rt-multi-thread", "signal"] }
objc2 = "*"
block2 = "*"
dispatch = "*"
