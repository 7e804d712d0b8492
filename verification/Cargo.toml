[package]
name = "pipeline_lifecycle"
version = "0.1.0"
edition = "2021"
publish = false

[dependencies]
color-eyre = "*"
glib = "*"
gstreamer = "*"
gstreamer-audio = "*"
gstreamer-video = "*"
tokio = { version = "*", features = ["macros", "rt-multi-thread", "signal", "sync", "time"] }
