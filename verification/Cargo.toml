[package]
name = "microfips"
version = "0.1.0"
edition = "2021"
publish = false

[dependencies]
heapless = "0.8"
tokio = { version = "1", features = ["rt", "net", "macros", "io-util", "time"] }
picoserve = { version = "*", features = ["tokio"] }
