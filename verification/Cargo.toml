[package]
name = "realworld_warp"
version = "0.1.0"
edition = "2021"
publish = false

[dependencies]
frank_jwt = "*"
serde_json = "1"
chrono = "0.4"
diesel = { version = "2", default-features = false, features = ["postgres"] }
dotenv = "0.15"
