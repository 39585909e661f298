[package]
name = "audio_mute"
version = "0.1.0"
edition = "2021"
publish = false

[dependencies]
log = "=0.4.34"
objc2-core-audio = { version = "=0.3.2", default-features = false, features = ["std", "AudioHardware", "AudioHardwareDeprecated"] }
