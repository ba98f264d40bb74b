[package]
name = "instant_replay"
version = "0.1.0"
edition = "2021"
publish = false

[dependencies]
bounded-vec-deque = "*"
chrono = "*"
crossbeam-channel = "*"
turbojpeg = "*"
scrap = "*"
hotkey = "*"
notify-rust = "*"
ffmpeg-next = "*"
