[package]
name = "scancode_channel"
version = "0.1.0"
edition = "2021"
publish = false

[dependencies]
conquer-once = { version = "0.2.0", default-features = false }
crossbeam-queue = { version = "0.2.1", default-features = false, features = ["alloc"] }
futures-util = { version = "0.3.4", default-features = false, features = ["alloc"] }
pc-keyboard = "0.5.0"
