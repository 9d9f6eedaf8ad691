[package]
name = "odm_orchestrator"
version = "0.1.0"
edition = "2021"
publish = false

[dependencies]
serde_json = "1"
actix-web = { version = "4", default-features = false, features = ["macros"] }
actix-cors = "0.7"
actix-multipart = "0.7"
futures-util = "0.3"
reqwest = { version = "0.12", default-features = false, features = ["json", "multipart"] }
tempfile = "3"
