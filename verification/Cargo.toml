[package]
name = "remarkers"
version = "0.1.0"
edition = "2021"
publish = false

[dependencies]
anyhow = "1"
clap = { version = "4", features = ["derive"] }
flate2 = "1"
image = { version = "0.24", default-features = false, features = ["png"] }
imageproc = { version = "0.23", default-features = false }
printpdf = "0.5"
rusttype = "0.9"
serde = { version = "1", features = ["derive"] }
serde_json = "1"
show-image = { version = "0.13", features = ["image"] }
ssh2 = "0.9"
tokio = { version = "1", features = ["macros", "process", "rt-multi-thread", "time"] }
tracing = "0.1"
tracing-subscriber = { version = "0.3", features = ["env-filter"] }
