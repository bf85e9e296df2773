[package]
name = "llcc"
version = "0.1.0"
edition = "2021"
publish = false

[dependencies]
colored = "2"
uuid = { version = "1", features = ["v4"] }

[dev-dependencies]
quickcheck = { version = "1", default-features = false }
