[package]
name = "breadglx"
version = "0.1.0"
edition = "2021"
publish = false

[dependencies]
breadx = { version = "=0.1.12", features = ["present", "glx", "dri3"] }
tinyvec = { version = "=1.13.3", features = ["alloc"] }
dashmap = "=6.2.1"
ahash = "=0.8.12"
libloading = "=0.9.0"
libc = "=0.2.191"
log = "=0.4.35"
