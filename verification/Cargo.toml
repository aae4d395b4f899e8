[package]
name = "build_meta"
version = "0.1.0"
edition = "2021"
publish = false

[dependencies]
camino = "=1.2.6"
log = "=0.4.34"
nextest-metadata = "=0.11.3"
target-spec = { version = "=3.7.0", features = ["summaries"] }

[dev-dependencies]
camino-tempfile = "=1.4.1"
itertools = "=0.15.0"
