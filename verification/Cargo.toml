[package]
name = "roadsense"
version = "0.1.0"
edition = "2021"
publish = false

[dependencies]
chrono = { version = "0.4", default-features = false, features = ["std"] }
serde = { version = "1", features = ["derive"] }
serde_json = "1"
log = "0.4"
env_logger = "0.11"
dotenv = "0.15"
tokio = { version = "1", features = ["macros", "rt-multi-thread", "sync", "time"] }
futures-lite = "2"
lapin = { version = "2", default-features = false }
reqwest = { version = "0.12", default-features = false, features = ["json"] }
diesel = { version = "2", default-features = false, features = ["postgres", "chrono"] }
postgis_diesel = "2"
actix-web = { version = "4", default-features = false, features = ["macros"] }
actix-cors = "0.7"
