[package]
name = "rs_reconcile"
version = "0.1.0"
edition = "2021"
publish = false

[dependencies]
tonic = { version = "=0.12.3", default-features = false, features = ["codegen"] }
tokio = { version = "=1.54.1", default-features = false }
