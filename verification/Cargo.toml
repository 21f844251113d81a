[package]
name = "player_events"
version = "0.1.0"
edition = "2021"
publish = false

[dependencies]
librespot-core = { version = "=0.4.2", default-features = false }
log = "0.4"
serde_json = "1"
