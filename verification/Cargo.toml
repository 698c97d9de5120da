[package]
name = "window_vibrancy"
version = "0.1.0"
edition = "2021"
publish = false

[dependencies]
objc2 = "0.5.2"
objc2-app-kit = { version = "0.2.2", default-features = false, features = ["std", "NSApplication", "NSGraphics", "NSResponder", "NSView", "NSVisualEffectView"] }
objc2-foundation = { version = "0.2.2", default-features = false, features = ["std", "NSThread", "NSGeometry"] }
