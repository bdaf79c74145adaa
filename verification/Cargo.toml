[package]
name = "fallout_equestria_tactics"
version = "0.1.0"
edition = "2021"
publish = false

[dependencies]
bevy = { version = "0.9", default-features = false, features = ["bevy_asset", "bevy_scene", "bevy_winit", "render", "png", "x11"] }
bevy_common_assets = { version = "0.4", features = ["json"] }
bevy_rapier3d = "0.19"
bevy_renet = "0.0.6"
bevy-scene-hook = "5"
bevy_turborand = "0.4"
bincode = "1.3"
rand = "0.8"
serde = { version = "1", features = ["derive"] }
