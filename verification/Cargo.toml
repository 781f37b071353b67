[package]
name = "gateway_resolver"
version = "0.1.0"
edition = "2021"
publish = false

[dependencies]
libipld = { version = "=0.12.0", default-features = false }
reqwest = { version = "=0.13.5", default-features = false }
tokio = { version = "=1.54.1", features = ["macros", "rt-multi-thread"] }
gtk = "=0.18.2"
webkit2gtk = { version = "=2.0.2", features = ["v2_6"] }
