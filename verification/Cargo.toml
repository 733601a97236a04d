[package]
name = "my_ext_processor"
version = "0.1.0"
edition = "2021"
publish = false

[dependencies]
futures = "=0.3.34"
prost = "=0.13.5"
tokio = { version = "=1.54.1", features = ["macros", "rt-multi-thread", "sync"] }
tokio-stream = "=0.1.19"
tonic = "=0.12.3"
tonic-reflection = "=0.12.3"
tracing = "=0.1.44"
tracing-subscriber = { version = "=0.3.23", features = ["env-filter", "fmt"] }
