[package]
name = "ffmpeg_rs_raw"
version = "0.1.0"
edition = "2021"
publish = false

[dependencies]
anyhow = "*"
ffmpeg-sys-the-third = "*"
libc = "*"
log = "*"
