[package]
name = "azure-dashboard-server"
version = "0.1.0"
edition = "2021"
publish = false

[dependencies]
chrono = "0.4"
actix-web = { version = "4", default-features = false, features = ["macros"] }
actix-files = "0.6"
actix-cors = "0.7"
reqwest = { version = "0.12", default-features = false, features = ["json"] }
serde = { version = "1", features = ["derive"] }
serde_json = "1"
config = { version = "0.14", default-features = false, features = ["json"] }
log = "0.4"
log4rs = "1"
once_cell = "1"
futures = "0.3"
anyhow = "1"
thiserror = "2"
