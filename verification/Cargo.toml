[package]
name = "log_bootstrap"
version = "0.1.0"
edition = "2021"
publish = false

[dependencies]
tracing-appender = "=0.2.5"
tracing-core = "=0.1.36"
tracing-subscriber = { version = "=0.3.23", features = ["env-filter"] }

[dev-dependencies]
tracing = "=0.1.44"
tempfile = "=3.27.0"
fs-err = "=3.3.2"
gag = "=1.0.0"
log = "=0.4.34"
