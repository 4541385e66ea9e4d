[package]
name = "cameras"
version = "0.1.0"
edition = "2021"
publish = false

[dependencies]
bytes = "1"
dioxus = { version = "0.7", default-features = false, features = ["macro", "html", "signals", "hooks", "launch"] }
futures-timer = "3"
objc2 = "*"
objc2-av-foundation = "*"
objc2-core-media = "*"
windows = { version = "*", features = ["Win32_Media_MediaFoundation", "Win32_System_Com", "Win32_Foundation"] }
