[package]
name = "pigeon"
version = "0.1.0"
edition = "2021"
publish = false

[dependencies]
hex = "0.4"
iroh = { version = "1.4.1", default-features = false }
rand = "0.9"
arrayvec = { version = "0.7", features = ["serde"] }
serde = { version = "1", features = ["derive"] }
postcard = { version = "1", features = ["alloc"] }
tokio = { version = "1", features = ["rt-multi-thread", "macros", "fs", "io-util", "io-std", "sync", "time"] }
reqwest = { version = "*", default-features = false, features = ["json"] }
axum = { version = "0.8.9", default-features = false, features = ["json", "tokio", "http1"] }
rustls = "*"
clap = { version = "4", default-features = false, features = ["derive", "std"] }
directories = "*"
n0-error = "*"
n0-future = "*"
