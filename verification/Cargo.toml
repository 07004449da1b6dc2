[package]
name = "bevy_h264"
version = "0.1.0"
edition = "2021"
publish = false

[dependencies]
bevy_app = "=0.13.2"
bevy_asset = "=0.13.2"
bevy_ecs = "=0.13.2"
bevy_reflect = "=0.13.2"
bevy_time = "=0.13.2"
openh264 = "=0.4.4"
thiserror = "=1.0.69"
