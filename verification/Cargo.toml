[package]
name = "intercept"
version = "0.1.0"
edition = "2021"
publish = false

[dependencies]
rtp = "=0.17.2"
rtcp = "=0.17.2"
webrtc-util = "=0.17.2"
bytes = "=1.12.1"
