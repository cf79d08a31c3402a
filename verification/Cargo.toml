[package]
name = "om_snapper"
version = "0.1.0"
edition = "2021"
publish = false

[dependencies]
anyhow = "=1.0.104"
atty = "=0.2.14"
aws-config = { version = "=1.13.0", default-features = false, features = ["behavior-version-latest", "rt-tokio"] }
aws-sdk-ebs = { version = "=1.117.0", default-features = false, features = ["rt-tokio"] }
bytesize = "=1.3.3"
clap = { version = "=4.6.7", features = ["derive"] }
indicatif = "=0.17.11"
memmapix = "=0.9.1"
tokio = { version = "=1.54.1", features = ["macros", "rt-multi-thread"] }
tracing = "=0.1.44"
tracing-subscriber = "=0.3.23"
