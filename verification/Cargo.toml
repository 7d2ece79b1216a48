[package]
name = "tivra"
version = "0.1.0"
edition = "2021"
publish = false

[dependencies]
i18n-embed = { version = "=0.16.0", features = ["fluent-system", "desktop-requester"] }
rust-embed = "=8.13.0"
i18n-embed-fl = "=0.10.1"
tracing = "=0.1.44"
tracing-subscriber = { version = "=0.3.23", features = ["env-filter", "fmt"] }
tracing-appender = "=0.2.5"
serde = { version = "=1.0.229", features = ["derive"] }
toml = "=0.9.8"
tokio = { version = "=1.54.1", features = ["fs", "rt"] }
directories = "=6.0.0"
image = { version = "=0.25.10", default-features = false, features = ["png"] }
iced = { version = "=0.14.0", default-features = false, features = ["tiny-skia", "x11", "svg", "image-without-codecs", "thread-pool", "crisp"] }
