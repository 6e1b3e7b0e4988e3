[package]
name = "playback_session"
version = "0.1.0"
edition = "2021"
publish = false

[dependencies]
anyhow = "=1.0.104"
crossterm = "=0.29.0"
glib = "0.20"
gstreamer = "0.23"
