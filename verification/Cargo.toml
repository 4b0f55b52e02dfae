[package]
name = "tikv_doc_store"
version = "0.1.0"
edition = "2021"
publish = false

[dependencies]
config = { version = "0.13", default-features = false, features = ["json"] }
lazy_static = "1"
log = "0.4"
log4rs = { version = "1", default-features = false, features = ["all_components"] }
napi = { version = "2", default-features = false, features = ["napi4", "async", "serde-json"] }
napi-derive = "2"
once_cell = "1"
serde = { version = "1", features = ["derive"] }
serde_json = "1"
tikv-client = "0.3"
uuid = { version = "1", features = ["v4"] }
