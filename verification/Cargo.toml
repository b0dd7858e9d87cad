[package]
name = "mattermost_api"
version = "0.1.0"
edition = "2021"
publish = false

[dependencies]
async-trait = "0.1"
serde = "1"
serde_json = "1"
