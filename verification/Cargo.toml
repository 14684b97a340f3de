[package]
name = "lance_c"
version = "0.1.0"
edition = "2021"
publish = false

[dependencies]
arrow = { version = "=58.4.1", default-features = false, features = ["ffi"] }
arrow-schema = { version = "=58.4.1", default-features = false, features = ["ffi"] }
lance-core = { version = "=7.1.0", default-features = false }
tokio = { version = "=1.54.1", default-features = false, features = ["rt-multi-thread"] }
