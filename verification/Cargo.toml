[package]
name = "blog_os"
version = "0.1.0"
edition = "2021"
publish = false

[dependencies]
linked_list_allocator = { version = "0.10", default-features = false }
x86_64 = { version = "0.15", default-features = false, features = ["instructions"] }
spin = "0.9"
lazy_static = { version = "1", features = ["spin_no_std"] }
volatile = "0.2"
bootloader = "0.9"
conquer-once = { version = "0.4", default-features = false }
crossbeam-queue = { version = "0.3", default-features = false, features = ["alloc"] }
futures-util = { version = "0.3", default-features = false, features = ["alloc"] }
